use cakeup::error::FailureKind;
use cakeup::version::{
    resolve_latest, resolve_specific, strip_tag_prefix, ResolvedVersion, VersionSpec,
};

fn version(text: &str) -> ResolvedVersion {
    ResolvedVersion::parse(text).unwrap()
}

#[test]
fn parses_a_release() {
    let parsed = version("0.30.0");
    assert_eq!((parsed.major, parsed.minor, parsed.patch), (0, 30, 0));
    assert_eq!(parsed.pre, "");
    assert_eq!(parsed.build, "");
    assert_eq!(parsed, ResolvedVersion::new(0, 30, 0));
}

#[test]
fn parses_the_tags() {
    let parsed = version("2.1.300-preview1-008174+sha.5");
    assert_eq!((parsed.major, parsed.minor, parsed.patch), (2, 1, 300));
    assert_eq!(parsed.pre, "preview1-008174");
    assert_eq!(parsed.build, "sha.5");
}

#[test]
fn a_parsed_version_renders_as_it_was_written() {
    for text in [
        "0.0.0",
        "0.30.0",
        "1.2.3",
        "10.20.30",
        "18446744073709551615.0.1",
        "1.0.0-alpha",
        "1.0.0-alpha.1",
        "1.0.0-0.3.7",
        "1.0.0+20130313144700",
        "1.0.0-beta+exp.sha.5114f85",
        "1.0.0--",
    ] {
        assert_eq!(version(text).to_text(), text);
        assert_eq!(resolve_specific(text).unwrap().to_text(), text);
    }
}

#[test]
fn text_that_is_no_version_is_a_version_failure() {
    for text in [
        "", "1", "1.0", "1.0.0.0", "v1.0.0", "latest", "01.0.0", "1.0.0-", "1.0.0+", " 1.0.0",
        "1.0.0\n", "1.0.0-01", "18446744073709551616.0.0", "1.0.x",
    ] {
        let failure = ResolvedVersion::parse(text).unwrap_err();
        assert_eq!(failure.kind, FailureKind::Version);
        assert_eq!(failure.message, "The provided version is not valid.");
        assert_eq!(resolve_specific(text).unwrap_err().kind, FailureKind::Version);
    }
}

#[test]
fn numbers_leave_the_tags_out() {
    assert_eq!(version("2.1.300-preview1+7").numbers(), "2.1.300");
    assert_eq!(ResolvedVersion::new(0, 0, 0).numbers(), "0.0.0");
}

#[test]
fn the_numbers_decide_the_order() {
    assert!(version("1.5.0").precedes(&version("1.19.0")));
    assert!(!version("1.19.0").precedes(&version("1.5.0")));
    assert!(version("0.23.9").precedes(&version("0.24.0")));
    assert!(version("1.9.9").precedes(&version("2.0.0")));
    assert!(version("1.0.0").precedes(&version("1.0.1")));
    assert!(!version("1.0.0").precedes(&version("1.0.0")));
}

#[test]
fn a_pre_release_comes_before_its_release() {
    assert!(version("1.0.0-alpha").precedes(&version("1.0.0")));
    assert!(!version("1.0.0").precedes(&version("1.0.0-alpha")));
    assert!(!version("1.0.1-alpha").precedes(&version("1.0.0")));
}

#[test]
fn pre_releases_are_ordered_by_their_tags() {
    let ordered = [
        "1.0.0-alpha",
        "1.0.0-alpha.1",
        "1.0.0-alpha.beta",
        "1.0.0-beta",
        "1.0.0-beta.2",
        "1.0.0-beta.11",
        "1.0.0-rc.1",
    ];
    for i in 0..ordered.len() {
        for j in 0..ordered.len() {
            assert_eq!(
                version(ordered[i]).precedes(&version(ordered[j])),
                i < j,
                "{} before {}",
                ordered[i],
                ordered[j]
            );
        }
    }
}

#[test]
fn build_tags_play_no_part_in_the_order() {
    assert!(!version("1.0.0+a").precedes(&version("1.0.0+b")));
    assert!(!version("1.0.0+b").precedes(&version("1.0.0+a")));
    assert!(version("1.0.0+b").satisfies(&version("1.0.0+a")));
}

#[test]
fn a_version_satisfies_what_is_not_newer() {
    assert!(version("2.1.4").satisfies(&version("2.1.4")));
    assert!(version("2.2.0").satisfies(&version("2.1.4")));
    assert!(!version("2.1.3").satisfies(&version("2.1.4")));
    assert!(!version("2.1.4-preview").satisfies(&version("2.1.4")));
    assert!(!ResolvedVersion::new(0, 0, 0).satisfies(&version("0.0.1")));
    assert!(ResolvedVersion::new(0, 0, 0).satisfies(&version("0.0.0")));
}

#[test]
fn copy_is_equal() {
    let original = version("1.2.3-rc.1+build");
    assert_eq!(original.copy(), original);
}

#[test]
fn one_leading_character_that_is_no_digit_is_stripped() {
    assert_eq!(strip_tag_prefix("v1.2.3"), "1.2.3");
    assert_eq!(strip_tag_prefix("vv1.2.3"), "v1.2.3");
    assert_eq!(strip_tag_prefix("-1"), "1");
    assert_eq!(strip_tag_prefix("é1.0.0"), "1.0.0");
    assert_eq!(strip_tag_prefix("v"), "");
}

#[test]
fn a_tag_without_prefix_is_left_alone() {
    assert_eq!(strip_tag_prefix("1.2.3"), "1.2.3");
    assert_eq!(strip_tag_prefix("0"), "0");
    assert_eq!(strip_tag_prefix(""), "");
}

#[test]
fn the_latest_release_resolves_from_its_tag() {
    assert_eq!(resolve_latest("v0.30.0").unwrap(), ResolvedVersion::new(0, 30, 0));
    assert_eq!(resolve_latest("0.30.0").unwrap(), ResolvedVersion::new(0, 30, 0));
    assert_eq!(resolve_latest("v1.0.0-rc0001").unwrap().to_text(), "1.0.0-rc0001");
    assert_eq!(resolve_latest("vv0.30.0").unwrap_err().kind, FailureKind::Version);
    assert_eq!(resolve_latest("").unwrap_err().kind, FailureKind::Version);
    assert_eq!(resolve_latest("release-1.0.0").unwrap_err().kind, FailureKind::Version);
}

#[test]
fn a_request_is_read_from_its_value() {
    assert_eq!(VersionSpec::parse(""), VersionSpec::Absent);
    assert_eq!(VersionSpec::parse("none"), VersionSpec::Absent);
    assert_eq!(VersionSpec::parse("latest"), VersionSpec::Latest);
    assert_eq!(VersionSpec::parse("0.30.0"), VersionSpec::Specific("0.30.0".to_string()));
    assert_eq!(VersionSpec::parse("None"), VersionSpec::Specific("None".to_string()));
    assert_eq!(VersionSpec::parse("LATEST"), VersionSpec::Specific("LATEST".to_string()));
    assert!(!VersionSpec::Absent.is_requested());
    assert!(VersionSpec::Latest.is_requested());
    assert!(VersionSpec::parse("1.0.0").is_requested());
}

fn tagged(major: u64, minor: u64, patch: u64, pre: &str) -> ResolvedVersion {
    ResolvedVersion { major, minor, patch, pre: pre.to_string(), build: String::new() }
}

#[test]
fn different_numbers_decide_whatever_the_tags_are() {
    for first in ["", "alpha", "rc.1", "not a tag", "01"] {
        for second in ["", "alpha", "zeta", "!!", "1"] {
            assert!(tagged(0, 9, 9, first).precedes(&tagged(1, 0, 0, second)));
            assert!(!tagged(1, 0, 0, second).precedes(&tagged(0, 9, 9, first)));
            assert!(tagged(1, 2, 3, first).precedes(&tagged(1, 3, 0, second)));
            assert!(tagged(1, 2, 3, first).precedes(&tagged(1, 2, 4, second)));
            assert!(!tagged(1, 2, 4, second).precedes(&tagged(1, 2, 3, first)));
            assert!(tagged(1, 3, 0, second).satisfies(&tagged(1, 2, 3, first)));
        }
    }
    assert!(tagged(0, u64::MAX, 0, "").precedes(&tagged(1, 0, 0, "")));
}

#[test]
fn a_release_comes_before_no_version_with_its_numbers() {
    for other in ["", "alpha", "rc.1", "0", "not a tag", "!!", "01"] {
        assert!(!tagged(1, 2, 3, "").precedes(&tagged(1, 2, 3, other)));
        assert!(tagged(1, 2, 3, "").satisfies(&tagged(1, 2, 3, other)));
    }
}

const SAMPLES: [&str; 24] = [
    "0.0.0",
    "0.0.1",
    "0.1.0",
    "0.23.0",
    "0.24.0-alpha",
    "0.24.0-alpha.1",
    "0.24.0-alpha.beta",
    "0.24.0-beta",
    "0.24.0-beta.2",
    "0.24.0-beta.11",
    "0.24.0-rc.1",
    "0.24.0",
    "0.24.0+build.7",
    "0.24.1",
    "1.0.0-0",
    "1.0.0-00a",
    "1.0.0--",
    "1.0.0-x.7.z.92",
    "1.0.0",
    "2.1.300-preview1-008174",
    "2.1.300",
    "10.2.3",
    "18446744073709551615.18446744073709551615.18446744073709551615",
    "1.0.0-alpha+001",
];

#[test]
fn the_text_of_a_version_is_what_the_semver_crate_writes() {
    for text in SAMPLES {
        let theirs = semver::Version::parse(text).unwrap();
        let ours = version(text);
        assert_eq!(ours.to_text(), theirs.to_string());
        assert_eq!(ours.major, theirs.major);
        assert_eq!(ours.minor, theirs.minor);
        assert_eq!(ours.patch, theirs.patch);
        assert_eq!(ours.pre, theirs.pre.as_str());
        assert_eq!(ours.build, theirs.build.as_str());
    }
}

#[test]
fn the_order_of_versions_is_the_precedence_of_the_semver_crate() {
    for first in SAMPLES {
        for second in SAMPLES {
            let theirs = semver::Version::parse(first)
                .unwrap()
                .cmp_precedence(&semver::Version::parse(second).unwrap())
                .is_lt();
            assert_eq!(version(first).precedes(&version(second)), theirs, "{first} {second}");
            assert_eq!(version(first).satisfies(&version(second)), !theirs, "{first} {second}");
        }
    }
}
