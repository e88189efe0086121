use runtipi_cli::version::{is_major_bump, VersionEnum};

fn specific(token: &str) -> (u64, u64, u64, String, String) {
    match VersionEnum::from_str(token) {
        Ok(VersionEnum::Version(v)) => (v.major, v.minor, v.patch, v.pre, v.build),
        other => panic!("expected a specific version for {token}, got {other:?}"),
    }
}

#[test]
fn parse_plain_version() {
    assert_eq!(specific("2.5.0"), (2, 5, 0, String::new(), String::new()));
}

#[test]
fn parse_with_lowercase_and_uppercase_prefix() {
    assert_eq!(specific("v1.2.3"), (1, 2, 3, String::new(), String::new()));
    assert_eq!(specific("V1.2.3"), (1, 2, 3, String::new(), String::new()));
    assert_eq!(specific("v1.2.3"), specific("1.2.3"));
}

#[test]
fn parse_keeps_prerelease_and_build() {
    assert_eq!(
        specific("v3.0.0-beta.2+build.7"),
        (3, 0, 0, "beta.2".to_string(), "build.7".to_string())
    );
}

#[test]
fn parse_sentinels() {
    assert!(matches!(VersionEnum::from_str("latest"), Ok(VersionEnum::Latest)));
    assert!(matches!(VersionEnum::from_str("nightly"), Ok(VersionEnum::Nightly)));
}

#[test]
fn sentinels_are_case_sensitive() {
    assert!(VersionEnum::from_str("Latest").is_err());
    assert!(VersionEnum::from_str("NIGHTLY").is_err());
}

#[test]
fn parse_rejects_non_versions_with_the_token() {
    for token in ["", "v", "1.2", "1.2.3.4", " 1.2.3", "1.2.3 ", "vv1.2.3", "01.2.3", "abc", "1.2.3/x"] {
        match VersionEnum::from_str(token) {
            Err(e) => assert_eq!(e.token, token),
            Ok(v) => panic!("{token:?} was accepted as {v:?}"),
        }
    }
}

#[test]
fn to_string_round_trips() {
    for token in ["1.2.3", "v10.0.1", "V0.0.0-rc.1", "2.0.0+meta", "4.5.6-alpha+001"] {
        let first = VersionEnum::from_str(token).unwrap();
        let text = first.to_string();
        let second = VersionEnum::from_str(&text).unwrap();
        assert_eq!(second.to_string(), text);
        assert_eq!(text, token.trim_start_matches(['v', 'V']));
    }
    assert_eq!(VersionEnum::from_str("latest").unwrap().to_string(), "latest");
    assert_eq!(VersionEnum::from_str("nightly").unwrap().to_string(), "nightly");
}

#[test]
fn major_bump_examples() {
    assert!(is_major_bump("1.2.3", "2.0.0"));
    assert!(!is_major_bump("2.0.0", "2.5.0"));
    assert!(!is_major_bump("2.0.0", "1.9.9"));
}

/// The leading components are compared as numbers: `9` to `10` is a major
/// bump; as strings, `"10"` would sort before `"9"`.
#[test]
fn major_bump_compares_numerically() {
    assert!(is_major_bump("9.0.0", "10.0.0"));
    assert!(!is_major_bump("10.0.0", "9.0.0"));
}

#[test]
fn major_bump_without_numeric_major() {
    assert!(!is_major_bump("1.0.0", "nightly"));
    assert!(!is_major_bump("v1.0.0", "2.0.0"));
    assert!(!is_major_bump("", "2.0.0"));
    assert!(is_major_bump("1", "18446744073709551615"));
}

#[test]
fn major_bump_beyond_64_bits() {
    assert!(is_major_bump("1.0.0", "99999999999999999999.0.0"));
    assert!(is_major_bump("1.0.0", "100000000000000000000.0.0"));
    assert!(is_major_bump("18446744073709551615.0.0", "18446744073709551616.0.0"));
    assert!(!is_major_bump("100000000000000000000.0.0", "99999999999999999999.0.0"));
    assert!(!is_major_bump("100000000000000000000.0.0", "100000000000000000000.1.0"));
}

#[test]
fn major_bump_ignores_leading_zeros() {
    assert!(is_major_bump("9.0.0", "0010.0.0"));
    assert!(!is_major_bump("10.0.0", "010.0.0"));
    assert!(!is_major_bump("007.0.0", "7.0.0"));
    assert!(is_major_bump("0.9.0", "1.0.0"));
}
