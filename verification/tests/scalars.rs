use json_preview::parse::parse_json;
use json_preview::render::{render_json, RenderNode};

fn only_line(text: &str, depth: usize) -> String {
    let value = parse_json(text).expect("a document");
    let mut nodes = render_json(&value, depth);
    assert_eq!(nodes.len(), 1);
    match nodes.remove(0) {
        RenderNode::Line(line) => line,
        RenderNode::Section { .. } => panic!("a scalar is one line"),
    }
}

#[test]
fn root_number_is_its_text() {
    assert_eq!(only_line("42", 0), "42");
}

#[test]
fn root_true_is_true() {
    assert_eq!(only_line("true", 0), "true");
}

#[test]
fn root_false_is_false() {
    assert_eq!(only_line("false", 0), "false");
}

#[test]
fn root_null_is_null() {
    assert_eq!(only_line("null", 0), "null");
}

#[test]
fn root_string_is_quoted() {
    assert_eq!(only_line("\"hello\"", 0), "\"hello\"");
}

#[test]
fn empty_string_is_two_quotation_marks() {
    assert_eq!(only_line("\"\"", 0), "\"\"");
}

#[test]
fn string_content_is_not_escaped_again() {
    // The document text `"a\"b\n"` is the string a"b followed by a line feed.
    assert_eq!(only_line("\"a\\\"b\\n\"", 0), "\"a\"b\n\"");
}

#[test]
fn negative_integer_keeps_its_sign() {
    assert_eq!(only_line("-7", 0), "-7");
}

#[test]
fn largest_unsigned_integer_is_kept() {
    assert_eq!(only_line("18446744073709551615", 0), "18446744073709551615");
}

#[test]
fn most_negative_integer_is_kept() {
    assert_eq!(only_line("-9223372036854775808", 0), "-9223372036854775808");
}

#[test]
fn fraction_is_kept() {
    assert_eq!(only_line("1.5", 0), "1.5");
}

#[test]
fn whole_float_stays_a_float() {
    assert_eq!(only_line("1.0", 0), "1.0");
}

#[test]
fn exponent_is_written_out() {
    assert_eq!(only_line("1e3", 0), "1000.0");
}

#[test]
fn surrounding_whitespace_is_ignored() {
    assert_eq!(only_line(" \n\t 42 \r\n", 0), "42");
}

#[test]
fn scalar_is_indented_by_two_spaces_per_level() {
    assert_eq!(only_line("null", 1), "  null");
    assert_eq!(only_line("true", 2), "    true");
    assert_eq!(only_line("42", 3), "      42");
    assert_eq!(only_line("\"x\"", 4), "        \"x\"");
}
