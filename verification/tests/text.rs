use ogcapi_poc::text::{decimal_text, find, hidden, split_text, trim_leading, trim_prefix, trim_suffix};

#[test]
fn split_keeps_empty_pieces() {
    assert_eq!(split_text("a//b", '/'), vec!["a".to_string(), "".to_string(), "b".to_string()]);
    assert_eq!(split_text("", '/'), vec!["".to_string()]);
    assert_eq!(split_text("abc", '/'), vec!["abc".to_string()]);
    assert_eq!(split_text("abc/", '/'), vec!["abc".to_string(), "".to_string()]);
}

#[test]
fn trim_prefix_strips_every_repetition() {
    assert_eq!(trim_prefix("mhs-uploadmhs-upload/x", "mhs-upload"), "/x");
    assert_eq!(trim_prefix("other/x", "mhs-upload"), "other/x");
    assert_eq!(trim_prefix("abc", ""), "abc");
}

#[test]
fn trim_suffix_strips_every_repetition() {
    assert_eq!(trim_suffix("alert.cap.cap", ".cap"), "alert");
    assert_eq!(trim_suffix("alert.xml", ".cap"), "alert.xml");
}

#[test]
fn trim_leading_strips_the_run() {
    assert_eq!(trim_leading("///a/b", '/'), "a/b");
    assert_eq!(trim_leading("a/b", '/'), "a/b");
}

#[test]
fn find_gives_the_first_position() {
    assert_eq!(find("x_initime_2022_initime", "initime"), Some(2));
    assert_eq!(find("abc", "initime"), None);
    assert_eq!(find("abc", ""), Some(0));
}

#[test]
fn hidden_segments_are_found() {
    assert!(hidden("a/.b"));
    assert!(hidden(".b"));
    assert!(!hidden("a.b/c.d"));
}

#[test]
fn decimal_text_writes_numerals() {
    assert_eq!(decimal_text(0), "0");
    assert_eq!(decimal_text(7), "7");
    assert_eq!(decimal_text(10), "10");
    assert_eq!(decimal_text(10203), "10203");
}
