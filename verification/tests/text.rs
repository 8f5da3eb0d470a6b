use json_preview::text::{
    indent_further, indentation, push_bool, push_decimal, push_index_label, push_null, push_quoted,
};

fn decimal(n: usize) -> String {
    let mut out = String::new();
    push_decimal(&mut out, n);
    out
}

#[test]
fn zero_is_one_digit() {
    assert_eq!(decimal(0), "0");
}

#[test]
fn single_digits() {
    assert_eq!(decimal(1), "1");
    assert_eq!(decimal(5), "5");
    assert_eq!(decimal(9), "9");
}

#[test]
fn digits_come_most_significant_first() {
    assert_eq!(decimal(10), "10");
    assert_eq!(decimal(12), "12");
    assert_eq!(decimal(21), "21");
    assert_eq!(decimal(100), "100");
    assert_eq!(decimal(1234567890), "1234567890");
}

#[test]
fn largest_index_is_written_in_full() {
    assert_eq!(decimal(usize::MAX), usize::MAX.to_string());
}

#[test]
fn decimal_agrees_with_the_standard_formatting() {
    for n in (0..100_000usize).step_by(37) {
        assert_eq!(decimal(n), n.to_string());
    }
}

#[test]
fn decimal_is_appended_to_what_is_there() {
    let mut out = String::from("[");
    push_decimal(&mut out, 42);
    out.push(']');
    assert_eq!(out, "[42]");
}

#[test]
fn no_indentation_at_level_zero() {
    assert_eq!(indentation(0), "");
}

#[test]
fn two_spaces_per_level() {
    assert_eq!(indentation(1), "  ");
    assert_eq!(indentation(2), "    ");
    assert_eq!(indentation(5), "          ");
    assert_eq!(indentation(1000), " ".repeat(2000));
}

#[test]
fn one_level_deeper_is_two_more_spaces() {
    assert_eq!(indent_further(""), "  ");
    assert_eq!(indent_further("  "), "    ");
    assert_eq!(indent_further(&indentation(3)), indentation(4));
}

#[test]
fn index_label_is_the_index_in_brackets() {
    let mut out = String::new();
    push_index_label(&mut out, 3);
    assert_eq!(out, "[3]");
    let mut out = String::from("    ");
    push_index_label(&mut out, 120);
    assert_eq!(out, "    [120]");
    let mut out = String::new();
    push_index_label(&mut out, 0);
    assert_eq!(out, "[0]");
}

#[test]
fn string_is_put_between_quotation_marks() {
    let mut out = String::from("  ");
    push_quoted(&mut out, "hello");
    assert_eq!(out, "  \"hello\"");
    let mut out = String::new();
    push_quoted(&mut out, "");
    assert_eq!(out, "\"\"");
    let mut out = String::new();
    push_quoted(&mut out, "say \"hi\" \\ ü");
    assert_eq!(out, "\"say \"hi\" \\ ü\"");
}

#[test]
fn booleans_are_written_as_words() {
    let mut out = String::from("  ");
    push_bool(&mut out, true);
    assert_eq!(out, "  true");
    let mut out = String::new();
    push_bool(&mut out, false);
    assert_eq!(out, "false");
}

#[test]
fn null_is_written_as_a_word() {
    let mut out = String::from("    ");
    push_null(&mut out);
    assert_eq!(out, "    null");
}
