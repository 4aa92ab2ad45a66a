use npack::env_vars::{deduplicate, set_var};

fn pair(name: &str, value: &str) -> (String, String) {
    (name.to_string(), value.to_string())
}

#[test]
fn set_var_replaces_in_place_or_appends() {
    let mut vars = vec![pair("A", "1"), pair("B", "2")];
    set_var(&mut vars, "A", "9");
    assert_eq!(vars, vec![pair("A", "9"), pair("B", "2")]);
    set_var(&mut vars, "C", "3");
    assert_eq!(vars, vec![pair("A", "9"), pair("B", "2"), pair("C", "3")]);
    let mut empty: Vec<(String, String)> = Vec::new();
    set_var(&mut empty, "X", "");
    assert_eq!(empty, vec![pair("X", "")]);
}

#[test]
fn set_var_touches_the_first_of_equal_names_only() {
    let mut vars = vec![pair("A", "1"), pair("A", "2")];
    set_var(&mut vars, "A", "9");
    assert_eq!(vars, vec![pair("A", "9"), pair("A", "2")]);
}

#[test]
fn deduplicate_keeps_the_first_place_and_the_last_value() {
    let vars = vec![pair("A", "1"), pair("B", "2"), pair("A", "3"), pair("C", "4"), pair("B", "5")];
    assert_eq!(deduplicate(&vars), vec![pair("A", "3"), pair("B", "5"), pair("C", "4")]);
    assert_eq!(deduplicate(&Vec::new()), Vec::new());
}
