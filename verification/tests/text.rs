use cryptalias::text::{chars_of, find_first, find_last, trim, trim_end_matches};

#[test]
fn chars_are_listed_in_order() {
    assert_eq!(chars_of("a$é"), vec!['a', '$', 'é']);
    assert_eq!(chars_of(""), Vec::<char>::new());
}

#[test]
fn trim_removes_white_space_at_both_ends_only() {
    assert_eq!(trim("  a b  "), "a b");
    assert_eq!(trim("\t\r\nx\u{3000}"), "x");
    assert_eq!(trim("x"), "x");
    assert_eq!(trim(" \u{a0} "), "");
    assert_eq!(trim(""), "");
    assert_eq!(trim(" é "), "é");
}

#[test]
fn trim_agrees_with_the_standard_library() {
    let samples = ["", " ", "a", " a", "a ", " a b ", "\u{2028}a\u{2029}", "\u{200b}a", "\u{feff}a ", "\u{85}a\u{1680}"];
    for sample in samples {
        assert_eq!(trim(sample), sample.trim());
    }
}

#[test]
fn trailing_slashes_are_all_removed() {
    assert_eq!(trim_end_matches("https://r.example.com/", '/'), "https://r.example.com");
    assert_eq!(trim_end_matches("https://r.example.com///", '/'), "https://r.example.com");
    assert_eq!(trim_end_matches("https://r.example.com/api", '/'), "https://r.example.com/api");
    assert_eq!(trim_end_matches("/a/", '/'), "/a");
    assert_eq!(trim_end_matches("///", '/'), "");
    assert_eq!(trim_end_matches("", '/'), "");
}

#[test]
fn first_and_last_occurrence_are_found() {
    let chars = chars_of("a.b.c");
    assert_eq!(find_first(&chars, '.'), Some(1));
    assert_eq!(find_last(&chars, '.'), Some(3));
    assert_eq!(find_last(&chars[..3], '.'), Some(1));
    assert_eq!(find_first(&chars[..1], '.'), None);
    assert_eq!(find_last(&chars[..1], '.'), None);
    assert_eq!(find_first(&chars, 'x'), None);
    assert_eq!(find_last(&[], 'a'), None);
    assert_eq!(find_first(&chars, 'a'), Some(0));
    assert_eq!(find_last(&chars, 'c'), Some(4));
}
