use tertestrial::decimal::usize_to_string;
use tertestrial::template::replace;
use tertestrial::values::{str_eq, ValueSet};

#[test]
fn tight_placeholder() {
    let have = replace("hello {{world}}", "world", "universe");
    assert_eq!(have, "hello universe");
}

#[test]
fn loose_placeholder() {
    let have = replace("hello {{ world }}", "world", "universe");
    assert_eq!(have, "hello universe");
}

#[test]
fn multiple_placeholders() {
    let have = replace("{{ hello }} {{ hello }}", "hello", "bye");
    assert_eq!(have, "bye bye");
}

#[test]
fn wide_padding_placeholder() {
    let have = replace("run {{\t \n hello \t}}", "hello", "bye");
    assert_eq!(have, "run bye");
}

#[test]
fn other_placeholder_untouched() {
    let have = replace("{{known}} and {{unknown}}", "known", "value");
    assert_eq!(have, "value and {{unknown}}");
}

#[test]
fn no_placeholder_verbatim() {
    let have = replace("plain text { with } braces {{almost}", "name", "value");
    assert_eq!(have, "plain text { with } braces {{almost}");
}

#[test]
fn empty_template() {
    let have = replace("", "name", "value");
    assert_eq!(have, "");
}

#[test]
fn replacement_not_rescanned_for_same_name() {
    let have = replace("{{x}}", "x", "{{x}}");
    assert_eq!(have, "{{x}}");
}

#[test]
fn decimal_renders_exactly() {
    assert_eq!(usize_to_string(0), "0");
    assert_eq!(usize_to_string(7), "7");
    assert_eq!(usize_to_string(12345), "12345");
    assert_eq!(usize_to_string(1000), "1000");
}

#[test]
fn str_eq_compares_content() {
    assert!(str_eq("abc", "abc"));
    assert!(!str_eq("abc", "abd"));
    assert!(!str_eq("abc", "ab"));
    assert!(str_eq("", ""));
}

#[test]
fn value_set_overrides_in_place() {
    let mut values = ValueSet::new();
    values.insert(String::from("a"), String::from("1"));
    values.insert(String::from("b"), String::from("2"));
    values.insert(String::from("a"), String::from("3"));
    assert_eq!(values.len(), 2);
    assert_eq!(values.get("a"), Some(&String::from("3")));
    assert_eq!(values.get("b"), Some(&String::from("2")));
    assert_eq!(values.get("c"), None);
}
