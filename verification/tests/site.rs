use clift::site::{
    get_site_name_from_ftd, is_white_space_char, site_name_in, trimmed, FastnFile,
    GetSiteNameFromFtdError,
};

fn chars(s: &str) -> Vec<char> {
    s.chars().collect()
}

#[test]
fn site_name_of_a_plain_package_file() {
    let text = "-- import: fastn\n\n-- fastn.package: my-site\n\n-- fastn.dependency: x\n";
    assert_eq!(site_name_in(text), Some("my-site".to_string()));
}

#[test]
fn site_name_on_the_only_line() {
    assert_eq!(site_name_in("-- fastn.package: hello"), Some("hello".to_string()));
    assert_eq!(site_name_in("-- fastn.package: hello\n"), Some("hello".to_string()));
}

#[test]
fn site_name_is_trimmed() {
    assert_eq!(site_name_in("-- fastn.package:    spaced out  \t\n"), Some("spaced out".to_string()));
    assert_eq!(site_name_in("-- fastn.package: \u{a0}nb\u{3000}"), Some("nb".to_string()));
    assert_eq!(site_name_in("-- fastn.package: "), Some(String::new()));
}

#[test]
fn site_name_with_carriage_returns() {
    assert_eq!(
        site_name_in("-- import: fastn\r\n-- fastn.package: win\r\n-- x: y\r\n"),
        Some("win".to_string())
    );
    assert_eq!(site_name_in("-- fastn.package: last\r"), Some("last".to_string()));
}

#[test]
fn site_name_follows_the_first_colon_of_the_line() {
    assert_eq!(
        site_name_in("note: -- fastn.package: x"),
        Some("-- fastn.package: x".to_string())
    );
    assert_eq!(site_name_in("-- fastn.package: a: b"), Some("a: b".to_string()));
    assert_eq!(site_name_in("  -- fastn.package: indented"), Some("indented".to_string()));
}

#[test]
fn site_name_of_the_first_package_line() {
    assert_eq!(
        site_name_in("-- fastn.package: one\n-- fastn.package: two\n"),
        Some("one".to_string())
    );
}

#[test]
fn site_name_needs_the_whole_marker() {
    assert_eq!(site_name_in(""), None);
    assert_eq!(site_name_in("\n\n"), None);
    assert_eq!(site_name_in("-- fastn.package:x"), None);
    assert_eq!(site_name_in("-- fastn.package:"), None);
    assert_eq!(site_name_in("--fastn.package: x"), None);
    assert_eq!(site_name_in("-- fastn.dependency: x\n-- import: y"), None);
    assert_eq!(site_name_in("-- fastn.package:\n x"), None);
    assert_eq!(site_name_in("-- fastn.\npackage: x"), None);
}

#[test]
fn white_space_characters() {
    for c in [' ', '\t', '\n', '\r', '\u{b}', '\u{c}', '\u{85}', '\u{a0}', '\u{1680}', '\u{2000}',
        '\u{200a}', '\u{2028}', '\u{2029}', '\u{202f}', '\u{205f}', '\u{3000}']
    {
        assert!(is_white_space_char(c), "{c:?}");
    }
    for c in ['a', '0', '-', '\u{8}', '\u{e}', '\u{1f}', '\u{200b}', '\u{feff}', '\u{180e}', '\u{2060}'] {
        assert!(!is_white_space_char(c), "{c:?}");
    }
}

#[test]
fn white_space_agrees_with_std_on_every_character() {
    let mut code = 0u32;
    while code <= 0x10ffff {
        if let Some(c) = char::from_u32(code) {
            assert_eq!(is_white_space_char(c), c.is_whitespace(), "{code:#x}");
        }
        code += 1;
    }
}

#[test]
fn trimmed_takes_both_ends_off() {
    assert_eq!(trimmed(&chars("  a b  ")), "a b");
    assert_eq!(trimmed(&chars("a")), "a");
    assert_eq!(trimmed(&chars("   ")), "");
    assert_eq!(trimmed(&chars("")), "");
    assert_eq!(trimmed(&chars("\t\r\nx\u{2003}")), "x");
}

#[test]
fn site_name_from_a_file_that_was_read() {
    let file = FastnFile::Content("-- fastn.package: from-file\n".to_string());
    assert_eq!(get_site_name_from_ftd(&file).unwrap(), "from-file");
}

#[test]
fn no_package_in_the_file() {
    let file = FastnFile::Content("-- import: fastn\n".to_string());
    assert!(matches!(
        get_site_name_from_ftd(&file),
        Err(GetSiteNameFromFtdError::PackageNotFound)
    ));
}

#[test]
fn file_that_could_not_be_opened() {
    let file = FastnFile::Unopened("No such file or directory".to_string());
    match get_site_name_from_ftd(&file) {
        Err(GetSiteNameFromFtdError::CantOpenFASTNFile(why)) => {
            assert_eq!(why, "No such file or directory")
        }
        other => panic!("{other:?}"),
    }
}

#[test]
fn file_that_could_not_be_read() {
    let file = FastnFile::Unread("stream did not contain valid UTF-8".to_string());
    match get_site_name_from_ftd(&file) {
        Err(GetSiteNameFromFtdError::CantReadFASTNFile(why)) => {
            assert_eq!(why, "stream did not contain valid UTF-8")
        }
        other => panic!("{other:?}"),
    }
}
