use std::cmp::Ordering;
use invil::semver::{is_semver, parse_version_core, parse_version_parts, semver_compare, SemVerKey};

#[test]
fn test_is_semver() {
    assert_eq!(is_semver("1.2.3"), true);
    assert_eq!(is_semver("1.20.3"), true);
    assert_eq!(is_semver("1.2.3-pr2"), false);
    assert_eq!(is_semver("1.2.3-pr2+b123"), false);
    assert_eq!(is_semver("1.2.3+b123"), false);
    assert_eq!(is_semver("01.2.3"), false);
    assert_eq!(is_semver("1.02.3"), false);
    assert_eq!(is_semver("1.2.03"), false);
}

#[test]
fn test_semver_compare() {
    // Test case 1
    assert_eq!(semver_compare("1.2.3", "1.2.4"), Ordering::Less);
    assert_eq!(semver_compare("2.0.0", "1.9.9"), Ordering::Greater);
    assert_eq!(semver_compare("1.2.0", "1.20.9"), Ordering::Less);
    assert_eq!(semver_compare("1.10.0", "1.1.10"), Ordering::Greater);

    // Test case 2: Test with pre-release metadata
    assert_eq!(semver_compare("1.0.0-alpha", "1.0.0-beta"), Ordering::Less);

    // Test case 3: Test with build metadata
    assert_eq!(semver_compare("1.0.0+build123", "1.0.0+build456"), Ordering::Equal);
    assert_eq!(semver_compare("1.0.0+pr123", "1.0.0+pr456"), Ordering::Equal);
    assert_eq!(semver_compare("1.0.0+pr123", "1.0.0+build456"), Ordering::Equal);

    // Test case 4: Test with both pre-release and build metadata
    assert_eq!(semver_compare("1.0.0-pr1+build123", "1.0.0-pr1+build456"), Ordering::Less);
    assert_eq!(semver_compare("1.0.0-pr2+build123", "1.0.0-pr1+build456"), Ordering::Greater);
    assert_eq!(semver_compare("1.0.0-pr2+build456", "1.0.0-pr1+build123"), Ordering::Greater);

    // Test case 5: Test with only version core and some extension
    assert_eq!(semver_compare("1.0.0", "1.0.0-pr1+build456"), Ordering::Greater);
    assert_eq!(semver_compare("1.0.0", "1.0.0+build456"), Ordering::Greater);
    assert_eq!(semver_compare("1.0.0", "1.0.0-patch123"), Ordering::Greater);
}

#[test]
fn version_core_keeps_readable_pieces() {
    assert_eq!(parse_version_core("1.2.3"), vec![1, 2, 3]);
    assert_eq!(parse_version_core("1.0.0+build"), vec![1, 0]);
    assert_eq!(parse_version_core("+7.x.08"), vec![7, 8]);
    assert_eq!(parse_version_core("18446744073709551616.1"), vec![1]);
    assert_eq!(parse_version_core(""), Vec::<u64>::new());
}

#[test]
fn version_parts_split_at_dash_then_plus() {
    let (core, pre, build) = parse_version_parts("1.2.3-rc1+b7");
    assert_eq!(core, vec![1, 2, 3]);
    assert_eq!(pre, "rc1");
    assert_eq!(build, "b7");
    let (core, pre, build) = parse_version_parts("1.2-x-y");
    assert_eq!(core, vec![1, 2]);
    assert_eq!(pre, "x-y");
    assert_eq!(build, "");
    let (_, pre, build) = parse_version_parts("4.5.6");
    assert_eq!(pre, "");
    assert_eq!(build, "");
}

#[test]
fn semver_order_laws_on_examples() {
    // reflexive and antisymmetric
    assert_eq!(semver_compare("2.0.11", "2.0.11"), Ordering::Equal);
    assert_eq!(semver_compare("2.0.9", "2.0.10"), Ordering::Less);
    assert_eq!(semver_compare("2.0.10", "2.0.9"), Ordering::Greater);
    // transitivity can fail when cores differ in length
    assert_eq!(semver_compare("1", "1.5-x"), Ordering::Greater);
    assert_eq!(semver_compare("1.5-x", "1.3"), Ordering::Greater);
    assert_eq!(semver_compare("1", "1.3"), Ordering::Less);
}

#[test]
fn semver_key_compares_as_versions() {
    let a = SemVerKey("0.9.0".to_string());
    let b = SemVerKey("0.10.0".to_string());
    assert_eq!(a.compare(&b), Ordering::Less);
    assert_eq!(b.duplicate().0, "0.10.0");
}

#[test]
fn strict_versions_compare_equal_only_when_identical() {
    assert_eq!(semver_compare("0.10.0", "0.10.0"), Ordering::Equal);
    assert_eq!(semver_compare("0.10.0", "0.9.0"), Ordering::Greater);
    assert_eq!(semver_compare("1.0.0", "1.0.1"), Ordering::Less);
    // transitive across three strict versions
    assert_eq!(semver_compare("0.9.0", "0.10.0"), Ordering::Less);
    assert_eq!(semver_compare("0.10.0", "1.0.0"), Ordering::Less);
    assert_eq!(semver_compare("0.9.0", "1.0.0"), Ordering::Less);
}
