use cppcheck_report::rules::mapping;
use cppcheck_report::text::{parse_coordinate, same_text};

#[test]
fn known_identifiers_get_their_codes() {
    assert_eq!(mapping("missingReturn").as_deref(), Some("CXX-W3551"));
    assert_eq!(mapping("misra-c2012-2.3").as_deref(), Some("CXX-W3007"));
    assert_eq!(mapping("misra-c2012-1.1").as_deref(), Some("CXX-W3001"));
    assert_eq!(mapping("purgedConfiguration").as_deref(), Some("CXX-W3500"));
    assert_eq!(mapping("preprocessorErrorDirective").as_deref(), Some("CXX-W3804"));
}

#[test]
fn unknown_identifiers_are_unmapped() {
    assert_eq!(mapping("not-a-real-rule"), None);
    assert_eq!(mapping(""), None);
    assert_eq!(mapping("missingreturn"), None);
    assert_eq!(mapping("misra-c2012-2.3 "), None);
    assert_eq!(mapping("misra-c2012-99.1"), None);
}

#[test]
fn repeated_calls_agree() {
    for id in ["missingReturn", "misra-c2012-5.8", "nope"] {
        assert_eq!(mapping(id), mapping(id));
    }
}

#[test]
fn distinct_identifiers_get_distinct_codes() {
    let ids = ["misra-c2012-1.1", "misra-c2012-1.2", "missingReturn", "purgedConfiguration", "toomanyconfigs"];
    let codes: Vec<String> = ids.iter().map(|i| mapping(i).unwrap()).collect();
    for a in 0..codes.len() {
        for b in 0..codes.len() {
            assert_eq!(a == b, codes[a] == codes[b]);
        }
    }
}

#[test]
fn codes_have_prefix_and_four_digits() {
    let c = mapping("toomanyconfigs").unwrap();
    assert_eq!(c, "CXX-W3501");
    assert_eq!(c.len(), 9);
    assert!(c.starts_with("CXX-W"));
    assert!(c[5..].chars().all(|d| d.is_ascii_digit()));
}

#[test]
fn coordinates_are_decimal() {
    assert_eq!(parse_coordinate("0"), Some(0));
    assert_eq!(parse_coordinate("196"), Some(196));
    assert_eq!(parse_coordinate("007"), Some(7));
    assert_eq!(parse_coordinate("4294967295"), Some(4294967295));
    assert_eq!(parse_coordinate("4294967296"), None);
    assert_eq!(parse_coordinate("99999999999999999999"), None);
    assert_eq!(parse_coordinate(""), None);
    assert_eq!(parse_coordinate("+4"), None);
    assert_eq!(parse_coordinate("4 "), None);
    assert_eq!(parse_coordinate("٣"), None);
}

#[test]
fn text_comparison() {
    assert!(same_text("abc", "abc"));
    assert!(same_text("", ""));
    assert!(!same_text("abc", "abd"));
    assert!(!same_text("abc", "ab"));
    assert!(!same_text("é", "e"));
}
