use typing_library::parser::parse_dictionary_body;

#[test]
fn classifies_every_line_once() {
    // Three parseable lines, one blank line, one malformed line: the entry
    // count and the invalid-line count always sum to the line count.
    let body = "ab:a,b\n\ncd:c,d\nno colon here\nef:e,f";
    let (entries, invalid) = parse_dictionary_body(body);
    assert_eq!(entries.len() + invalid.len(), 5);
    assert_eq!(entries.len(), 3);
    assert_eq!(invalid, vec![2, 4]);
}

#[test]
fn blank_line_between_two_entries() {
    // A body of two parseable lines separated by a blank one: the blank
    // line's 1-indexed position is reported, both entries are kept.
    let body = "ab:a,b\n\ncd:c,d";
    let (entries, invalid) = parse_dictionary_body(body);
    assert_eq!(invalid, vec![2]);
    assert_eq!(entries.len(), 2);
}

#[test]
fn empty_body_has_no_lines() {
    let (entries, invalid) = parse_dictionary_body("");
    assert_eq!(entries.len(), 0);
    assert_eq!(invalid.len(), 0);
}

#[test]
fn whitespace_only_lines_are_invalid() {
    let (entries, invalid) = parse_dictionary_body(" \n\t\n\u{3000}");
    assert_eq!(entries.len(), 0);
    assert_eq!(invalid, vec![1, 2, 3]);
}

#[test]
fn all_invalid_body_is_not_an_error() {
    let (entries, invalid) = parse_dictionary_body("no colon\nalso bad");
    assert_eq!(entries.len(), 0);
    assert_eq!(invalid, vec![1, 2]);
}

#[test]
fn trailing_newline_adds_no_line() {
    let (entries, invalid) = parse_dictionary_body("ab:a,b\n");
    assert_eq!(entries.len(), 1);
    assert_eq!(invalid.len(), 0);
}

#[test]
fn carriage_returns_are_stripped() {
    let (entries, invalid) = parse_dictionary_body("ab:a,b\r\n\r\ncd:c,d");
    assert_eq!(entries.len(), 2);
    assert_eq!(invalid, vec![2]);
}

#[test]
fn final_line_keeps_a_trailing_carriage_return() {
    // A carriage return is part of a line ending only together with a line
    // feed: an unterminated final line keeps it, so the line reaches the
    // engine's parser unchanged and is rejected there.
    let (entries, invalid) = parse_dictionary_body("ab:a,b\r");
    assert_eq!(entries.len(), 0);
    assert_eq!(invalid, vec![1]);
}

#[test]
fn entries_preserve_source_order() {
    let body = "ab:a,b\ncd:c,d";
    let (entries, _) = parse_dictionary_body(body);
    let (first, _) = parse_dictionary_body("ab:a,b");
    let (second, _) = parse_dictionary_body("cd:c,d");
    assert_eq!(entries, vec![first[0].clone(), second[0].clone()]);
}
