use markreply::author::is_admin;
use markreply::text::{
    eq_ignore_ascii_case, is_blank, is_white_space, split, trim, trim_start_matches,
};

#[test]
fn white_space_of_every_character() {
    for n in 0..0x110000u32 {
        if let Some(c) = char::from_u32(n) {
            assert_eq!(is_white_space(c), c.is_whitespace());
        }
    }
}

#[test]
fn trim_removes_both_ends() {
    for s in ["", " ", "a", " a ", "\t\n a b \u{3000}", "\u{a0}é\u{2009}", "a ", " b"] {
        assert_eq!(trim(s), s.trim());
        assert_eq!(trim(trim(s)), trim(s));
        assert_eq!(is_blank(s), s.trim().is_empty());
    }
    assert_eq!(trim("  x y  "), "x y");
}

#[test]
fn ascii_case_is_ignored() {
    assert!(eq_ignore_ascii_case("Admin@Example.COM", "admin@example.com"));
    assert!(!eq_ignore_ascii_case("admin", "admin2"));
    assert!(!eq_ignore_ascii_case("É", "é"));
    for (a, b) in [("AZ[", "az["), ("@", "`"), ("[", "{"), ("É", "É"), ("", "")] {
        assert_eq!(eq_ignore_ascii_case(a, b), a.eq_ignore_ascii_case(b));
    }
}

#[test]
fn prefixes_go_as_often_as_they_stand() {
    assert_eq!(trim_start_matches("Bearer Bearer x", "Bearer "), "x");
    for s in ["Bearer x", "bearer x", "Bearer", "Bearer ", "x Bearer ", ""] {
        assert_eq!(trim_start_matches(s, "Bearer "), s.trim_start_matches("Bearer "));
    }
}

#[test]
fn split_gives_every_piece() {
    assert_eq!(split("a=b=c", '='), vec!["a", "b", "c"]);
    for s in ["", "=", "a", "=a", "a=", "é==ü"] {
        let expected: Vec<&str> = s.split('=').collect();
        assert_eq!(split(s, '='), expected);
    }
}

#[test]
fn split_in_two_runs() {
    let mut runs = split("a;b", ';');
    runs.extend(split("c", ';'));
    assert_eq!(split("a;b;c", ';'), runs);
}

#[test]
fn administrator_is_known_by_address() {
    let admin = Some("Boss@Example.com");
    assert!(is_admin(&Some("boss@example.com".to_string()), admin));
    assert!(is_admin(&Some(" \tBOSS@example.com\n".to_string()), admin));
    assert!(!is_admin(&Some("boss@example.org".to_string()), admin));
    assert!(!is_admin(&Some("   ".to_string()), admin));
    assert!(!is_admin(&None, admin));
}

#[test]
fn padding_of_the_configured_address_counts() {
    assert!(!is_admin(&Some("a@b.c".to_string()), Some(" a@b.c")));
}

#[test]
fn nobody_is_administrator_without_a_configured_address() {
    assert!(!is_admin(&Some("a@b.c".to_string()), None));
    assert!(!is_admin(&Some("a@b.c".to_string()), Some("")));
    assert!(!is_admin(&Some("".to_string()), Some("")));
}
