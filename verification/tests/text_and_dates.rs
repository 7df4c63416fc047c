use planning_scraper::date::parse_date;
use planning_scraper::error::CrawlError;
use planning_scraper::text::{
    chars_of, contains, field_name, holds_text, joined, replace_all, same_text, text_of, trim,
};

#[test]
fn date_is_normalised_to_iso() {
    assert_eq!(parse_date("Mon 03 Jun 2024"), Some("2024-06-03".to_string()));
    assert_eq!(parse_date("Fri 31 Jan 2025"), Some("2025-01-31".to_string()));
    assert_eq!(parse_date("Thu 29 Feb 2024"), Some("2024-02-29".to_string()));
}

#[test]
fn empty_date_is_absent() {
    assert_eq!(parse_date(""), None);
}

#[test]
fn unparsable_date_is_absent() {
    assert_eq!(parse_date("not a date"), None);
    assert_eq!(parse_date("2024-06-03"), None);
    assert_eq!(parse_date("03 Jun 2024"), None);
    assert_eq!(parse_date("Mon 31 Jun 2024"), None);
}

#[test]
fn date_with_wrong_weekday_is_absent() {
    assert_eq!(parse_date("Tue 03 Jun 2024"), None);
}

#[test]
fn label_becomes_field_name() {
    assert_eq!(field_name("Application Validated"), "application_validated");
    assert_eq!(field_name("  Decision Issued Date \n"), "decision_issued_date");
    assert_eq!(field_name("Reference"), "reference");
    assert_eq!(field_name(""), "");
}

#[test]
fn field_name_holds_no_space() {
    for label in ["A B  C", " x y ", "Agent Company Name", "one"] {
        assert!(!field_name(label).contains(' '));
    }
    assert_eq!(field_name("A B  C"), "a_b__c");
}

#[test]
fn trim_removes_white_space_at_both_ends() {
    assert_eq!(trim("  a b \t\n"), "a b");
    assert_eq!(trim("\u{a0}x\u{2003}"), "x");
    assert_eq!(trim("   "), "");
    assert_eq!(trim(""), "");
    assert_eq!(trim("abc"), "abc");
}

#[test]
fn replace_all_replaces_every_occurrence() {
    assert_eq!(replace_all("a=summary&b=summary", "=summary", "=details"), "a=details&b=details");
    assert_eq!(replace_all("aaaa", "aa", "b"), "bb");
    assert_eq!(replace_all("aaa", "aa", "b"), "ba");
    assert_eq!(replace_all("abc", "x", "y"), "abc");
    assert_eq!(replace_all("abc", "abcd", "y"), "abc");
    assert_eq!(replace_all("abc", "", "y"), "abc");
    assert_eq!(replace_all("", "a", "y"), "");
    assert_eq!(replace_all("xabc", "abc", ""), "x");
}

#[test]
fn contains_finds_a_substring() {
    assert!(contains("the decision notice", "decision"));
    assert!(contains("decision", "decision"));
    assert!(contains("abc", ""));
    assert!(contains("", ""));
    assert!(!contains("decisio", "decision"));
    assert!(!contains("", "a"));
    assert!(contains("xxapplication form", "application form"));
}

#[test]
fn same_text_compares_characters() {
    assert!(same_text("abc", "abc"));
    assert!(same_text("", ""));
    assert!(!same_text("abc", "abd"));
    assert!(!same_text("abc", "ab"));
    assert!(!same_text("", "a"));
}

#[test]
fn chars_and_text_are_inverse() {
    let v = chars_of("héllo");
    assert_eq!(v, vec!['h', 'é', 'l', 'l', 'o']);
    assert_eq!(text_of(&v), "héllo");
    assert_eq!(text_of(&Vec::new()), "");
}

#[test]
fn joined_appends() {
    assert_eq!(joined("https://host", "/path"), "https://host/path");
    assert_eq!(joined("", ""), "");
}

#[test]
fn holds_text_looks_for_a_member() {
    let list = vec!["a".to_string(), "bc".to_string()];
    assert!(holds_text(&list, "bc"));
    assert!(!holds_text(&list, "b"));
    assert!(!holds_text(&Vec::new(), ""));
}

#[test]
fn each_error_has_its_message() {
    assert_eq!(CrawlError::ProtocolShape.message(), "expected page element is missing");
    assert_eq!(CrawlError::PaginationLoop.message(), "next page link does not advance");
    assert_eq!(CrawlError::Transport.message(), "request to the portal failed");
    assert_eq!(CrawlError::Upload.message(), "document upload failed");
    assert_eq!(CrawlError::Store.message(), "document store operation failed");
    assert_eq!(CrawlError::MissingReference.message(), "no reference id found");
}
