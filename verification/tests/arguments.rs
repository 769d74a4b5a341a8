use script_bridge::args::extract_args;

fn pairs(items: &[(&str, &str)]) -> Vec<(String, String)> {
    items.iter().map(|(k, v)| (k.to_string(), v.to_string())).collect()
}

#[test]
fn no_parameters_give_no_arguments() {
    assert_eq!(extract_args(&pairs(&[]), &pairs(&[])), Vec::<String>::new());
}

#[test]
fn both_spellings_of_the_key_count() {
    let query = pairs(&[("args", "one"), ("args[]", "two")]);
    assert_eq!(extract_args(&query, &pairs(&[])), vec!["one", "two"]);
}

#[test]
fn other_keys_are_ignored() {
    let query = pairs(&[
        ("arg", "a"),
        ("args ", "b"),
        ("Args", "c"),
        ("args[0]", "d"),
        ("args[]x", "e"),
        ("", "f"),
        ("xargs", "g"),
    ]);
    assert_eq!(extract_args(&query, &pairs(&[])), Vec::<String>::new());
    assert_eq!(extract_args(&pairs(&[]), &query), Vec::<String>::new());
}

#[test]
fn query_comes_before_form() {
    let query = pairs(&[("args", "q1"), ("x", "no"), ("args[]", "q2")]);
    let form = pairs(&[("args[]", "f1"), ("y", "no"), ("args", "f2")]);
    assert_eq!(extract_args(&query, &form), vec!["q1", "q2", "f1", "f2"]);
}

#[test]
fn order_and_repeats_are_kept() {
    let query = pairs(&[("args", "b"), ("args", "a"), ("args", "b"), ("args", "")]);
    assert_eq!(extract_args(&query, &pairs(&[])), vec!["b", "a", "b", ""]);
}

#[test]
fn values_are_taken_as_they_are() {
    let form = pairs(&[("args", "-rf /"), ("args", "a b"), ("args", "é"), ("args", "args")]);
    assert_eq!(extract_args(&pairs(&[]), &form), vec!["-rf /", "a b", "é", "args"]);
}

#[test]
fn arguments_of_the_whole_are_those_of_the_parts() {
    let query = pairs(&[("args", "1"), ("k", "v")]);
    let form = pairs(&[("k", "v"), ("args[]", "2")]);
    let mut expected = extract_args(&query, &pairs(&[]));
    expected.extend(extract_args(&pairs(&[]), &form));
    assert_eq!(extract_args(&query, &form), expected);
}
