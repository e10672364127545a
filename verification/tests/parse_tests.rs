use todo_notes::numparse::parse_note_id;

#[test]
fn plain_numbers_parse() {
    assert_eq!(parse_note_id("0"), Some(0));
    assert_eq!(parse_note_id("42"), Some(42));
    assert_eq!(parse_note_id("007"), Some(7));
}

#[test]
fn signed_numbers_parse() {
    assert_eq!(parse_note_id("+5"), Some(5));
    assert_eq!(parse_note_id("-7"), Some(-7));
    assert_eq!(parse_note_id("-0"), Some(0));
}

#[test]
fn extreme_values_parse() {
    assert_eq!(parse_note_id("2147483647"), Some(i32::MAX));
    assert_eq!(parse_note_id("-2147483648"), Some(i32::MIN));
}

#[test]
fn out_of_range_values_do_not_parse() {
    assert_eq!(parse_note_id("2147483648"), None);
    assert_eq!(parse_note_id("-2147483649"), None);
    assert_eq!(parse_note_id("99999999999999999999"), None);
}

#[test]
fn malformed_input_does_not_parse() {
    assert_eq!(parse_note_id(""), None);
    assert_eq!(parse_note_id("+"), None);
    assert_eq!(parse_note_id("-"), None);
    assert_eq!(parse_note_id("12a"), None);
    assert_eq!(parse_note_id("a12"), None);
    assert_eq!(parse_note_id("1 2"), None);
    assert_eq!(parse_note_id("--3"), None);
    assert_eq!(parse_note_id("1.5"), None);
}

#[test]
fn parses_as_std_does_on_common_lines() {
    for line in ["0", "42", "007", "+5", "-7", "2147483647", "-2147483648", "2147483648", "", "+",
        "x", "12a"] {
        assert_eq!(parse_note_id(line), line.parse::<i32>().ok(), "on {:?}", line);
    }
}
