use touchhle::copyright_pages::{
    copyright_line_end, copyright_page_end, copyright_page_is_blank, copyright_page_is_last,
    copyright_page_start,
};

#[test]
fn pages_start_after_spaces_and_line_breaks() {
    assert_eq!(copyright_page_start(" \r\n\nabc", 0), 4);
    assert_eq!(copyright_page_start("abc", 1), 1);
    assert_eq!(copyright_page_start("ab \n", 2), 4);
    assert_eq!(copyright_page_start("ab", 7), 2);
    assert_eq!(copyright_page_start("\tx", 0), 0);
}

#[test]
fn lines_end_after_their_line_break() {
    assert_eq!(copyright_line_end("ab\ncd", 0), 3);
    assert_eq!(copyright_line_end("ab\ncd", 3), 5);
    assert_eq!(copyright_line_end("\n", 0), 1);
}

#[test]
fn a_page_takes_the_lines_that_fit() {
    let text = "one\ntwo\nthree\nfour\n";
    assert_eq!(copyright_page_end(text, 0, 1), 4);
    assert_eq!(copyright_page_end(text, 0, 2), 8);
    assert_eq!(copyright_page_end(text, 0, 10), 19);
    assert_eq!(copyright_page_end(text, 4, 2), 14);
}

#[test]
fn headings_start_and_dividers_end_pages() {
    let text = "intro\n### Lib\nbody\n---\nnext\n";
    assert_eq!(copyright_page_end(text, 0, 10), 6);
    assert_eq!(copyright_page_end(text, 6, 10), 23);
    assert_eq!(copyright_page_end(text, 14, 1), 19);
    let divider_first = "---\nmore\n";
    assert_eq!(copyright_page_end(divider_first, 0, 10), 9);
}

#[test]
fn blank_pages_and_the_last_page() {
    assert!(copyright_page_is_blank("a \n\t b", 1, 5));
    assert!(copyright_page_is_blank("abc", 1, 1));
    assert!(!copyright_page_is_blank("a \n\t b", 1, 6));
    assert!(copyright_page_is_blank("x\u{3000}\u{a0}", 1, 3));
    assert!(copyright_page_is_last("héllo", 5));
    assert!(!copyright_page_is_last("héllo", 4));
}
