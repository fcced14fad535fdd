use ofcrse::text::{
    chars_of, decimal, ends_with, final_segment_has_dot, replace_all, starts_with, str_eq,
};

#[test]
fn decimal_writes_numbers_in_base_ten() {
    assert_eq!(decimal(0), "0");
    assert_eq!(decimal(7), "7");
    assert_eq!(decimal(10), "10");
    assert_eq!(decimal(109), "109");
    assert_eq!(decimal(31536000), "31536000");
    assert_eq!(decimal(usize::MAX), usize::MAX.to_string());
}

#[test]
fn replace_all_agrees_with_the_standard_library() {
    let cases = [
        ("<p><!-- ERROR --></p>", "<!-- ERROR -->", "<pre>x</pre>"),
        ("no marker here", "<!-- ERROR -->", "x"),
        ("aaaa", "aa", "b"),
        ("aaa", "aa", "b"),
        ("abcabc", "abc", ""),
        ("", "a", "b"),
        ("a", "abc", "b"),
        ("xAxAx", "A", "AA"),
        ("h\u{e9}llo w\u{f6}rld", "\u{f6}", "o"),
        ("<!-- ERROR --><!-- ERROR -->", "<!-- ERROR -->", "<!-- ERROR -->"),
    ];
    for (text, marker, with) in cases {
        assert_eq!(replace_all(text, marker, with), text.replace(marker, with));
    }
}

#[test]
fn replace_all_leaves_the_text_alone_for_an_empty_marker() {
    assert_eq!(replace_all("abc", "", "x"), "abc");
}

#[test]
fn prefixes_and_suffixes_are_found() {
    assert!(starts_with("/count/x", "/count"));
    assert!(starts_with("/count", "/count"));
    assert!(!starts_with("/coun", "/count"));
    assert!(!starts_with("/Count", "/count"));
    assert!(starts_with("anything", ""));
    assert!(ends_with("a.ofcr.se", ".ofcr.se"));
    assert!(!ends_with("ofcr.se", ".ofcr.se"));
    assert!(ends_with("", ""));
    assert!(!ends_with("se", ".ofcr.se"));
    assert!(ends_with("caf\u{e9}", "f\u{e9}"));
}

#[test]
fn only_a_dot_in_the_final_segment_counts() {
    assert!(final_segment_has_dot("/app.js"));
    assert!(final_segment_has_dot("/a/b/c.d.e"));
    assert!(final_segment_has_dot("file.txt"));
    assert!(final_segment_has_dot("/."));
    assert!(!final_segment_has_dot("/a.b/c"));
    assert!(!final_segment_has_dot("/a.b/"));
    assert!(!final_segment_has_dot("/"));
    assert!(!final_segment_has_dot(""));
    assert!(!final_segment_has_dot("/posts"));
}

#[test]
fn texts_are_compared_and_split_by_character() {
    assert!(str_eq("health.check", "health.check"));
    assert!(!str_eq("health.check", "health.chec"));
    assert!(!str_eq("a", "A"));
    assert!(str_eq("", ""));
    assert_eq!(chars_of("h\u{e9}!"), vec!['h', '\u{e9}', '!']);
    assert_eq!(chars_of(""), Vec::<char>::new());
}
