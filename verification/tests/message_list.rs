use activity_energy::messages::{load_messages, messages_or_empty};

#[test]
fn a_json_array_of_strings_is_read_in_order() {
    let list = load_messages("[\"one\", \"two\", \"three\"]");
    assert_eq!(list, vec![String::from("one"), String::from("two"), String::from("three")]);
}

#[test]
fn escapes_are_decoded() {
    let list = load_messages("[\"a\\nb\", \"\\u00e9\", \"\"]");
    assert_eq!(list, vec![String::from("a\nb"), String::from("\u{e9}"), String::new()]);
}

#[test]
fn an_empty_array_gives_no_messages() {
    assert!(load_messages("[]").is_empty());
    assert!(load_messages("  [ ]\n").is_empty());
}

#[test]
fn text_that_is_not_json_gives_no_messages() {
    assert!(load_messages("").is_empty());
    assert!(load_messages("not json").is_empty());
    assert!(load_messages("[\"open\"").is_empty());
    assert!(load_messages("[\"a\"] trailing").is_empty());
}

#[test]
fn json_of_another_shape_gives_no_messages() {
    assert!(load_messages("{\"news\": [\"a\"]}").is_empty());
    assert!(load_messages("[1, 2, 3]").is_empty());
    assert!(load_messages("[\"a\", 2]").is_empty());
    assert!(load_messages("\"a\"").is_empty());
    assert!(load_messages("null").is_empty());
}

#[test]
fn a_decoded_list_is_kept_and_an_error_gives_the_empty_list() {
    let good: Result<Vec<String>, serde_json::Error> = serde_json::from_str("[\"x\", \"y\"]");
    assert_eq!(messages_or_empty(good), vec![String::from("x"), String::from("y")]);
    let bad: Result<Vec<String>, serde_json::Error> = serde_json::from_str("{");
    assert!(bad.is_err());
    assert!(messages_or_empty(bad).is_empty());
}
