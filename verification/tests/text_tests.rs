use hyprbrowser::text::{str_ends_with, str_eq, str_lt, strip_leading};

#[test]
fn order_agrees_with_string_order() {
    let cases = [
        ("", "a"),
        ("a", "b"),
        ("abc", "abd"),
        ("ab", "abc"),
        ("1.2.0", "1.2.3"),
        ("1.10.0", "1.9.0"),
    ];
    for (a, b) in cases {
        assert!(str_lt(a, b), "{a} should order before {b}");
        assert!(!str_lt(b, a), "{b} should not order before {a}");
        assert_eq!(str_lt(a, b), a.to_string() < b.to_string());
    }
}

#[test]
fn order_is_irreflexive() {
    for s in ["", "a", "1.2.3", "vv"] {
        assert!(!str_lt(s, s));
    }
}

#[test]
fn equality_compares_contents() {
    assert!(str_eq("", ""));
    assert!(str_eq("release.zip", "release.zip"));
    assert!(!str_eq("release.zip", "release.zi"));
    assert!(!str_eq("a", "b"));
}

#[test]
fn suffix_test_matches_ends_with() {
    assert!(str_ends_with("release.zip", ".zip"));
    assert!(str_ends_with(".zip", ".zip"));
    assert!(!str_ends_with("zip", ".zip"));
    assert!(!str_ends_with("archive.tar", ".zip"));
    assert!(str_ends_with("anything", ""));
}

#[test]
fn leading_markers_are_stripped() {
    assert_eq!(strip_leading("v1.2.3", 'v'), "1.2.3");
    assert_eq!(strip_leading("vvv2.0", 'v'), "2.0");
    assert_eq!(strip_leading("2.0", 'v'), "2.0");
    assert_eq!(strip_leading("", 'v'), "");
    assert_eq!(strip_leading("vvv", 'v'), "");
    assert_eq!(strip_leading("a-v1", 'v'), "a-v1");
}
