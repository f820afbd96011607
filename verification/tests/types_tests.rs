use bepinex_installer::types::PackageReference;
use bepinex_installer::types::PackageReferenceParseError;
use bepinex_installer::types::Version;
use bepinex_installer::types::VersionParseError;
use bepinex_installer::types::installer_identity;
use bepinex_installer::types::protocol_version;

#[test]
fn version_parses_simple_triple() {
    let v = Version::from_str("1.2.3").unwrap();
    assert_eq!(v, Version { major: 1, minor: 2, patch: 3 });
}

#[test]
fn version_round_trips_through_text() {
    let cases = [
        Version { major: 0, minor: 0, patch: 0 },
        Version { major: 1, minor: 0, patch: 0 },
        Version { major: 10, minor: 20, patch: 30 },
        Version { major: 4294967295, minor: 0, patch: 7 },
    ];
    for v in cases {
        let text = v.to_display_string();
        let back = Version::from_str(&text).unwrap();
        assert_eq!(back, v);
    }
}

#[test]
fn version_text_is_dotted_decimal() {
    let v = Version { major: 12, minor: 0, patch: 345 };
    assert_eq!(v.to_display_string(), "12.0.345");
}

#[test]
fn version_with_too_few_dots_fails_with_dot_count() {
    assert_eq!(Version::from_str("1"), Err(VersionParseError::DotCount(0)));
    assert_eq!(Version::from_str("1.2"), Err(VersionParseError::DotCount(1)));
}

#[test]
fn version_with_bad_segment_fails_with_int_parse() {
    assert_eq!(Version::from_str("a.b.c"), Err(VersionParseError::IntParse));
    assert_eq!(Version::from_str("1.2.3.4"), Err(VersionParseError::IntParse));
    assert_eq!(Version::from_str(""), Err(VersionParseError::IntParse));
    assert_eq!(Version::from_str("1..3"), Err(VersionParseError::IntParse));
}

#[test]
fn version_segment_above_u32_max_fails() {
    assert_eq!(Version::from_str("4294967296.0.0"), Err(VersionParseError::IntParse));
    let v = Version::from_str("4294967295.0.0").unwrap();
    assert_eq!(v.major, 4294967295);
}

#[test]
fn package_reference_parses_from_the_right() {
    let r = PackageReference::from_str("bbepis-BepInExPack-5.4.21").unwrap();
    assert_eq!(r.namespace, "bbepis");
    assert_eq!(r.name, "BepInExPack");
    assert_eq!(r.version, Version { major: 5, minor: 4, patch: 21 });
}

#[test]
fn package_reference_namespace_may_contain_dashes() {
    let r = PackageReference::from_str("team-cool-ModName-1.0.0").unwrap();
    assert_eq!(r.namespace, "team-cool");
    assert_eq!(r.name, "ModName");
    assert_eq!(r.version, Version { major: 1, minor: 0, patch: 0 });
}

#[test]
fn package_reference_round_trips_through_text() {
    let r = PackageReference {
        namespace: "team-cool".to_string(),
        name: "ModName".to_string(),
        version: Version { major: 2, minor: 5, patch: 9 },
    };
    let text = r.to_display_string();
    assert_eq!(text, "team-cool-ModName-2.5.9");
    let back = PackageReference::from_str(&text).unwrap();
    assert_eq!(back, r);
}

#[test]
fn package_reference_with_too_few_sections_fails() {
    assert_eq!(
        PackageReference::from_str("nodashes"),
        Err(PackageReferenceParseError::NumSections { expected: 3, got: 0 })
    );
    assert_eq!(
        PackageReference::from_str("one-dash"),
        Err(PackageReferenceParseError::NumSections { expected: 3, got: 1 })
    );
}

#[test]
fn package_reference_with_bad_version_fails() {
    assert_eq!(
        PackageReference::from_str("ns-name-1.2"),
        Err(PackageReferenceParseError::VersionParseFail(VersionParseError::DotCount(1)))
    );
    assert_eq!(
        PackageReference::from_str("ns-name-oops"),
        Err(PackageReferenceParseError::VersionParseFail(VersionParseError::IntParse))
    );
}

#[test]
fn full_name_joins_namespace_and_name() {
    let r = PackageReference {
        namespace: "Team".to_string(),
        name: "Cool".to_string(),
        version: Version { major: 1, minor: 0, patch: 0 },
    };
    assert_eq!(r.full_name(), "Team-Cool");
}

#[test]
fn installer_identity_is_fixed() {
    let id = installer_identity();
    assert_eq!(id.namespace, "metherul");
    assert_eq!(id.name, "bepinex_installer");
    assert_eq!(id.version, Version { major: 1, minor: 0, patch: 0 });
    assert_eq!(protocol_version(), Version { major: 1, minor: 0, patch: 0 });
}
