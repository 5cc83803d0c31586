//! Texts, names and numbers.

use lenso_organization::names::{
    valid_membership_request, valid_name, valid_names, valid_organization_name, valid_permission,
    valid_secret_reference, valid_slug,
};
use lenso_organization::notation::decimal_text;
use lenso_organization::text::{is_control, is_white_space, length, trim};

#[test]
fn every_character_is_classified_as_in_unicode() {
    for code in 0..=0x10ffff_u32 {
        if let Some(c) = char::from_u32(code) {
            assert_eq!(is_white_space(c), c.is_whitespace(), "{code:x}");
            assert_eq!(is_control(c), c.is_control(), "{code:x}");
        }
    }
}

#[test]
fn trimming_takes_white_space_at_both_ends() {
    for text in [
        "",
        " ",
        "Acme",
        "  Acme Inc \t\n",
        "\u{3000}Acme\u{a0}",
        "\u{85}\u{2028}",
        "\u{200b}Acme",
    ] {
        assert_eq!(trim(text), text.trim());
        assert_eq!(trim(trim(text)), trim(text));
        assert_eq!(length(text), text.len());
    }
}

#[test]
fn numbers_are_written_in_decimal() {
    for value in [0, 7, 10, 1203, -1, -90, i64::MAX, i64::MIN] {
        assert_eq!(decimal_text(value), value.to_string());
    }
}

#[test]
fn names_are_narrow() {
    assert!(valid_name("business-admin", 256));
    assert!(valid_name("A.b_c-d:0", 9));
    assert!(!valid_name("A.b_c-d:0", 8));
    assert!(!valid_name("", 256));
    assert!(!valid_name("business admin", 256));
    assert!(!valid_name("caf\u{e9}", 256));
    assert!(!valid_name("a/b", 256));
    assert!(valid_name(&"a".repeat(256), 256));
    assert!(!valid_name(&"a".repeat(257), 256));
    assert!(valid_names(&Vec::new(), 256));
    assert!(valid_names(&vec!["a".to_owned(), "b".to_owned()], 256));
    assert!(!valid_names(&vec!["a".to_owned(), "b c".to_owned()], 256));
}

#[test]
fn slugs_end_in_a_letter_or_a_digit() {
    assert!(valid_slug("a"));
    assert!(valid_slug("0"));
    assert!(valid_slug("a--b"));
    assert!(!valid_slug(""));
    assert!(!valid_slug("-"));
    assert!(!valid_slug("acme-"));
    assert!(!valid_slug("acme_platform"));
    assert!(valid_slug(&"a".repeat(100)));
    assert!(!valid_slug(&"a".repeat(101)));
}

#[test]
fn permissions_have_a_dot() {
    assert!(valid_permission("organization.read"));
    assert!(valid_permission("."));
    assert!(!valid_permission("organization"));
    assert!(!valid_permission("organization .read"));
    assert!(valid_permission(&format!("{}.", "a".repeat(199))));
    assert!(!valid_permission(&format!("{}.", "a".repeat(200))));
}

#[test]
fn organization_names_are_measured_in_bytes_once_trimmed() {
    assert!(valid_organization_name("Acme"));
    assert!(valid_organization_name("  Acme\n"));
    assert!(!valid_organization_name(" \t "));
    assert!(!valid_organization_name("Ac\nme"));
    assert!(!valid_organization_name("Ac\u{7f}me"));
    assert!(valid_organization_name(&"a".repeat(200)));
    assert!(!valid_organization_name(&"a".repeat(201)));
    assert!(valid_organization_name(&format!(" {} ", "a".repeat(200))));
    assert!(valid_organization_name(&"\u{e9}".repeat(100)));
    assert!(!valid_organization_name(&"\u{e9}".repeat(101)));
}

#[test]
fn membership_requests_are_three_names() {
    assert!(valid_membership_request("key", "org_acme", "usr_member"));
    assert!(!valid_membership_request("", "org_acme", "usr_member"));
    assert!(!valid_membership_request("key", "org acme", "usr_member"));
    assert!(!valid_membership_request("key", "org_acme", "usr/member"));
}

#[test]
fn secret_references_are_relative_paths_without_steps() {
    for accepted in [
        "database",
        "organization/database",
        "a/b/c",
        "..a",
        "a..",
        "...",
        "a/.b/c.",
    ] {
        assert!(valid_secret_reference(accepted), "{accepted}");
    }
    for refused in [
        "",
        "/",
        "/database",
        "database/",
        "organization//database",
        ".",
        "..",
        "./database",
        "organization/..",
        "a/./b",
        "a/../b",
        "a b",
        "a:b",
        "caf\u{e9}",
    ] {
        assert!(!valid_secret_reference(refused), "{refused}");
    }
    assert!(valid_secret_reference(&"a".repeat(256)));
    assert!(!valid_secret_reference(&"a".repeat(257)));
}
