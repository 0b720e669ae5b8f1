use preflight::text::{char_is_digit, decimal_text, digit_text};
use preflight::version::{without_marker, SemanticVersion, UnparsableVersion, VersionFields};

#[test]
fn parses_plain_version() {
    assert_eq!(SemanticVersion::parse("0.107.29"), Ok(SemanticVersion::new(0, 107, 29)));
    assert_eq!(SemanticVersion::parse("1.2.3"), Ok(SemanticVersion::new(1, 2, 3)));
    assert_eq!(SemanticVersion::parse("0.0.0"), Ok(SemanticVersion::new(0, 0, 0)));
}

#[test]
fn parses_largest_numbers() {
    assert_eq!(
        SemanticVersion::parse("18446744073709551615.0.18446744073709551615"),
        Ok(SemanticVersion::new(u64::MAX, 0, u64::MAX))
    );
}

#[test]
fn rejects_number_beyond_u64() {
    assert_eq!(SemanticVersion::parse("18446744073709551616.0.0"), Err(UnparsableVersion));
}

#[test]
fn rejects_text_that_is_no_version() {
    for text in ["", "1", "1.2", "1.2.3.4", "1.2.x", "a.b.c", " 1.2.3", "1.2.3 ", "1..3", ".1.2", "1.2.", "-1.2.3"] {
        assert_eq!(SemanticVersion::parse(text), Err(UnparsableVersion), "{:?}", text);
    }
}

#[test]
fn rejects_leading_zeros() {
    assert_eq!(SemanticVersion::parse("01.2.3"), Err(UnparsableVersion));
    assert_eq!(SemanticVersion::parse("1.02.3"), Err(UnparsableVersion));
    assert_eq!(SemanticVersion::parse("1.2.03"), Err(UnparsableVersion));
}

#[test]
fn rejects_marker_in_plain_parse() {
    assert_eq!(SemanticVersion::parse("v1.2.3"), Err(UnparsableVersion));
}

#[test]
fn rejects_qualified_versions() {
    assert_eq!(SemanticVersion::parse("1.2.3-alpha"), Err(UnparsableVersion));
    assert_eq!(SemanticVersion::parse("1.2.3+build.5"), Err(UnparsableVersion));
    assert_eq!(SemanticVersion::parse("1.2.3-rc.1+build.5"), Err(UnparsableVersion));
    assert_eq!(SemanticVersion::parse("0.108.0-b.50"), Err(UnparsableVersion));
}

#[test]
fn rejects_empty_suffixes() {
    assert_eq!(SemanticVersion::parse("1.2.3-"), Err(UnparsableVersion));
    assert_eq!(SemanticVersion::parse("1.2.3+"), Err(UnparsableVersion));
}

#[test]
fn from_fields_takes_plain_fields() {
    let fields = VersionFields { major: 4, minor: 5, patch: 6, pre: String::new(), build: String::new() };
    assert_eq!(SemanticVersion::from_fields(&fields), Ok(SemanticVersion::new(4, 5, 6)));
}

#[test]
fn from_fields_refuses_suffixes() {
    let pre = VersionFields { major: 4, minor: 5, patch: 6, pre: "rc.1".to_string(), build: String::new() };
    assert_eq!(SemanticVersion::from_fields(&pre), Err(UnparsableVersion));
    let build = VersionFields { major: 4, minor: 5, patch: 6, pre: String::new(), build: "7".to_string() };
    assert_eq!(SemanticVersion::from_fields(&build), Err(UnparsableVersion));
}

#[test]
fn strips_one_leading_marker() {
    assert_eq!(without_marker("v0.107.29"), "0.107.29");
    assert_eq!(without_marker("V1.2.3"), "1.2.3");
    assert_eq!(without_marker("vv1.2.3"), "v1.2.3");
    assert_eq!(without_marker("-1.2.3"), "1.2.3");
    assert_eq!(without_marker(" 1.2.3"), "1.2.3");
    assert_eq!(without_marker("v"), "");
}

#[test]
fn strips_a_marker_of_several_bytes() {
    assert_eq!(without_marker("é1.2.3"), "1.2.3");
    assert_eq!(without_marker("\u{1F600}1.2.3"), "1.2.3");
    assert_eq!(without_marker("٣1.2.3"), "1.2.3");
}

#[test]
fn keeps_text_without_marker() {
    assert_eq!(without_marker("0.107.29"), "0.107.29");
    assert_eq!(without_marker("9"), "9");
    assert_eq!(without_marker(""), "");
}

#[test]
fn parse_reported_accepts_marker_or_none() {
    assert_eq!(SemanticVersion::parse_reported("v0.107.29"), Ok(SemanticVersion::new(0, 107, 29)));
    assert_eq!(SemanticVersion::parse_reported("0.107.29"), Ok(SemanticVersion::new(0, 107, 29)));
}

#[test]
fn parse_reported_drops_no_more_than_one_character() {
    assert_eq!(SemanticVersion::parse_reported("vv0.107.29"), Err(UnparsableVersion));
    assert_eq!(SemanticVersion::parse_reported(""), Err(UnparsableVersion));
    assert_eq!(SemanticVersion::parse_reported("v"), Err(UnparsableVersion));
    assert_eq!(SemanticVersion::parse_reported("v0.108.0-b.50"), Err(UnparsableVersion));
}

#[test]
fn parse_or_sentinel_falls_back() {
    assert_eq!(SemanticVersion::parse_or_sentinel("1.9.0"), SemanticVersion::new(1, 9, 0));
    assert_eq!(SemanticVersion::parse_or_sentinel("nonsense"), SemanticVersion::new(0, 0, 0));
    assert_eq!(SemanticVersion::parse_or_sentinel("1.9.0-dev"), SemanticVersion::new(0, 0, 0));
    assert_eq!(SemanticVersion::parse_or_sentinel(""), SemanticVersion::sentinel());
}

#[test]
fn named_versions() {
    assert_eq!(SemanticVersion::sentinel(), SemanticVersion { major: 0, minor: 0, patch: 0 });
    assert_eq!(SemanticVersion::minimum_supported(), SemanticVersion { major: 0, minor: 107, patch: 29 });
    assert!(SemanticVersion::sentinel().is_sentinel());
    assert!(!SemanticVersion::minimum_supported().is_sentinel());
    assert!(!SemanticVersion::new(0, 0, 1).is_sentinel());
    assert!(!SemanticVersion::new(0, 1, 0).is_sentinel());
    assert!(!SemanticVersion::new(1, 0, 0).is_sentinel());
}

#[test]
fn order_compares_numbers_not_text() {
    let a = SemanticVersion::new(1, 5, 0);
    let b = SemanticVersion::new(1, 19, 0);
    assert!(a.precedes(&b));
    assert!(!b.precedes(&a));
}

#[test]
fn order_goes_left_to_right() {
    let versions = [
        SemanticVersion::new(0, 0, 0),
        SemanticVersion::new(0, 0, 1),
        SemanticVersion::new(0, 1, 0),
        SemanticVersion::new(0, 107, 28),
        SemanticVersion::new(0, 107, 29),
        SemanticVersion::new(0, 108, 0),
        SemanticVersion::new(1, 0, 0),
        SemanticVersion::new(1, 0, 1),
        SemanticVersion::new(2, 0, 0),
        SemanticVersion::new(u64::MAX, u64::MAX, u64::MAX),
    ];
    for (i, a) in versions.iter().enumerate() {
        for (j, b) in versions.iter().enumerate() {
            assert_eq!(a.precedes(b), i < j, "{:?} {:?}", a, b);
            assert_eq!(a < b, i < j, "{:?} {:?}", a, b);
            assert_eq!(a == b, i == j);
        }
    }
}

#[test]
fn order_is_total_on_samples() {
    let versions = [
        SemanticVersion::new(3, 1, 4),
        SemanticVersion::new(1, 5, 9),
        SemanticVersion::new(2, 6, 5),
        SemanticVersion::new(3, 1, 4),
        SemanticVersion::new(3, 5, 8),
    ];
    for a in versions.iter() {
        for b in versions.iter() {
            let cases = [a.precedes(b), a == b, b.precedes(a)];
            assert_eq!(cases.iter().filter(|c| **c).count(), 1);
            for c in versions.iter() {
                if a.precedes(b) && b.precedes(c) {
                    assert!(a.precedes(c));
                }
            }
        }
    }
}

#[test]
fn writes_versions() {
    assert_eq!(SemanticVersion::new(0, 107, 29).to_text(), "0.107.29");
    assert_eq!(SemanticVersion::new(0, 0, 0).to_text(), "0.0.0");
    assert_eq!(SemanticVersion::new(10, 20, 30).to_text(), "10.20.30");
    assert_eq!(
        SemanticVersion::new(u64::MAX, 0, 1).to_text(),
        "18446744073709551615.0.1"
    );
}

#[test]
fn written_version_reads_back() {
    for version in [
        SemanticVersion::new(0, 0, 0),
        SemanticVersion::new(0, 107, 29),
        SemanticVersion::new(1, 0, 100),
        SemanticVersion::new(u64::MAX, u64::MAX, u64::MAX),
    ] {
        let text = version.to_text();
        assert_eq!(without_marker(&text), text);
        assert_eq!(SemanticVersion::parse(&text), Ok(version));
        assert_eq!(SemanticVersion::parse_reported(&text), Ok(version));
    }
}

#[test]
fn writes_decimal_numbers() {
    assert_eq!(decimal_text(0), "0");
    assert_eq!(decimal_text(7), "7");
    assert_eq!(decimal_text(9), "9");
    assert_eq!(decimal_text(10), "10");
    assert_eq!(decimal_text(107), "107");
    assert_eq!(decimal_text(1000), "1000");
    assert_eq!(decimal_text(9876543210), "9876543210");
    assert_eq!(decimal_text(u64::MAX), "18446744073709551615");
}

#[test]
fn writes_single_digits() {
    let expected = ["0", "1", "2", "3", "4", "5", "6", "7", "8", "9"];
    for d in 0u8..10 {
        assert_eq!(digit_text(d), expected[d as usize]);
    }
}

#[test]
fn tells_digits_from_other_characters() {
    for c in '0'..='9' {
        assert!(char_is_digit(c));
    }
    for c in ['/', ':', 'v', 'V', ' ', '-', '+', '.', '٣', '\u{1F600}'] {
        assert!(!char_is_digit(c), "{:?}", c);
    }
}
