use hits_core::text::{contains, copy_optional, copy_texts, join, to_decimal};

fn strings(list: &[&str]) -> Vec<String> {
    list.iter().map(|s| s.to_string()).collect()
}

#[test]
fn join_of_nothing_is_empty() {
    assert_eq!(join(&strings(&[]), ", "), "");
}

#[test]
fn join_of_one_has_no_separator() {
    assert_eq!(join(&strings(&["a@x.com"]), ", "), "a@x.com");
}

#[test]
fn join_puts_separator_between_neighbours() {
    assert_eq!(join(&strings(&["a", "b", "c"]), ", "), "a, b, c");
    assert_eq!(join(&strings(&["a", "", "c"]), "-"), "a--c");
}

#[test]
fn contains_finds_equal_string_only() {
    let list = strings(&["a@x.com", "b@x.com"]);
    assert!(contains(&list, &"b@x.com".to_string()));
    assert!(!contains(&list, &"B@x.com".to_string()));
    assert!(!contains(&strings(&[]), &"a@x.com".to_string()));
}

#[test]
fn decimal_of_small_and_large_numbers() {
    assert_eq!(to_decimal(0), "0");
    assert_eq!(to_decimal(7), "7");
    assert_eq!(to_decimal(10), "10");
    assert_eq!(to_decimal(100_000), "100000");
    assert_eq!(to_decimal(999_999), "999999");
    assert_eq!(to_decimal(u64::MAX), "18446744073709551615");
}

#[test]
fn copies_are_equal_to_what_they_copy() {
    assert_eq!(copy_texts(&strings(&["a", "", "b"])), strings(&["a", "", "b"]));
    assert_eq!(copy_texts(&strings(&[])), strings(&[]));
    assert_eq!(copy_optional(&Some("a".to_string())), Some("a".to_string()));
    assert_eq!(copy_optional(&None), None);
}
