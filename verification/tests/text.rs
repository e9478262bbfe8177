use xsd_parser::renderer::docs::{format_traits, render_docs, trim_end};
use xsd_parser::text::{
    ascii_lowercase_eq, char_is_white_space, filter_non_empty, parse_usize, push_decimal,
    split_once_char, str_eq, trim, type_name_from_path,
};

#[test]
fn type_names_come_from_paths() {
    assert_eq!(type_name_from_path("::xsd_parser_types::xml::QName"), "QName");
    assert_eq!(type_name_from_path("Plain"), "Plain");
    assert_eq!(type_name_from_path("a::"), "");
}

#[test]
fn parse_usize_follows_from_str() {
    assert_eq!(parse_usize("16"), Some(16));
    assert_eq!(parse_usize("+7"), Some(7));
    assert_eq!(parse_usize("007"), Some(7));
    assert_eq!(parse_usize(""), None);
    assert_eq!(parse_usize("+"), None);
    assert_eq!(parse_usize("-1"), None);
    assert_eq!(parse_usize(" 1"), None);
    assert_eq!(parse_usize("18446744073709551615"), Some(usize::MAX));
    assert_eq!(parse_usize("18446744073709551616"), None);
}

#[test]
fn trimming_and_splitting() {
    assert_eq!(trim("  Red\t\n"), "Red");
    assert_eq!(trim("   "), "");
    assert_eq!(trim_end("line \t"), "line");
    assert_eq!(split_once_char("tns:Root", ':'), Some(("tns", "Root")));
    assert_eq!(split_once_char("a:b:c", ':'), Some(("a", "b:c")));
    assert_eq!(split_once_char("Root", ':'), None);
    assert!(char_is_white_space('\u{3000}'));
    assert!(!char_is_white_space('x'));
}

#[test]
fn string_comparisons() {
    assert!(str_eq("abc", "abc"));
    assert!(!str_eq("abc", "abd"));
    assert!(ascii_lowercase_eq("CoLLapse", "collapse"));
    assert!(!ascii_lowercase_eq("collapsed", "collapse"));
    assert_eq!(filter_non_empty(vec!["a".to_string(), "".to_string(), "b".to_string()]), vec!["a", "b"]);
}

#[test]
fn decimal_representation() {
    let mut s = "n".to_string();
    push_decimal(&mut s, 0);
    push_decimal(&mut s, 1203);
    assert_eq!(s, "n01203");
    let mut m = String::new();
    push_decimal(&mut m, u64::MAX);
    assert_eq!(m, u64::MAX.to_string());
}

#[test]
fn docs_are_split_into_trimmed_lines() {
    let docs = vec!["First line  \nsecond\n".to_string(), "third".to_string()];
    let lines = render_docs(true, &docs).unwrap();
    assert_eq!(lines, vec!["First line", "second", "", "third"]);
    assert!(render_docs(false, &docs).is_none());
    assert_eq!(render_docs(true, &vec![]).unwrap(), Vec::<String>::new());
}

#[test]
fn traits_are_joined() {
    assert_eq!(format_traits(&vec![]), "");
    assert_eq!(format_traits(&vec!["Debug".to_string()]), "Debug");
    assert_eq!(
        format_traits(&vec!["Debug".to_string(), "Clone".to_string(), "Send".to_string()]),
        "Debug + Clone + Send"
    );
}
