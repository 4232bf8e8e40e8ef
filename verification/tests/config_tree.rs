use k4q::properties::config_tree::{ConfigNode, ConfigValue, Scalar};
use k4q::properties::configuration_error::{ConfigurationError, Shape};
use k4q::properties::path::{is_identifier, parse, segments};

fn text(value: &str) -> ConfigValue {
    ConfigValue::Scalar(Scalar::Text(String::from(value)))
}

fn integer(value: i64) -> ConfigValue {
    ConfigValue::Scalar(Scalar::Integer(value))
}

/// a.b.c = `c`, a.name = "alpha", debug = true
fn tree(c: i64) -> ConfigNode {
    let mut b = ConfigNode::new();
    b.insert(String::from("c"), integer(c));
    let mut a = ConfigNode::new();
    a.insert(String::from("b"), ConfigValue::Node(b));
    a.insert(String::from("name"), text("alpha"));
    let mut root = ConfigNode::new();
    root.insert(String::from("a"), ConfigValue::Node(a));
    root.insert(String::from("debug"), ConfigValue::Scalar(Scalar::Boolean(true)));
    root
}

fn not_found(key: &str) -> ConfigurationError {
    ConfigurationError::NotFound(String::from(key))
}

fn mismatch(key: &str, expected: Shape) -> ConfigurationError {
    ConfigurationError::TypeMismatch { key: String::from(key), expected }
}

fn wrong_kind(key: &str, expected: &str, actual: &str) -> ConfigurationError {
    ConfigurationError::DeserializationError {
        origin: None,
        key: Some(String::from(key)),
        expected: String::from(expected),
        actual: String::from(actual),
    }
}

#[test]
fn path_is_split_at_its_dots() {
    assert_eq!(vec!["a", "b", "c"], segments("a.b.c"));
    assert_eq!(vec!["broker"], segments("broker"));
    assert_eq!(vec![""], segments(""));
    assert_eq!(vec!["a", "", "b"], segments("a..b"));
    assert_eq!(vec!["", "a", ""], segments(".a."));
    assert_eq!(vec!["", ""], segments("."));
    assert_eq!(vec!["tëst", "ключ"], segments("tëst.ключ"));
}

#[test]
fn get_resolves_a_dotted_path() {
    let root = tree(1);
    assert_eq!(Some(&Scalar::Integer(1)), root.get("a.b.c").unwrap().as_scalar());
    assert_eq!(
        Some(&Scalar::Text(String::from("alpha"))),
        root.get("a.name").unwrap().as_scalar()
    );
    assert_eq!(Some(&Scalar::Boolean(true)), root.get("debug").unwrap().as_scalar());
    assert!(root.get("a").unwrap().as_scalar().is_none());
    let b = root.get("a.b").unwrap().as_node().unwrap();
    assert_eq!(Ok(1), b.get_integer("c"));
}

#[test]
fn get_fails_with_not_found_where_a_segment_is_absent() {
    let root = tree(1);
    assert_eq!(not_found("missing"), root.get("missing").err().unwrap());
    assert_eq!(not_found("a.x"), root.get("a.x").err().unwrap());
    assert_eq!(not_found("a.x.c"), root.get("a.x.c").err().unwrap());
    assert_eq!(not_found("a.b.d"), root.get("a.b.d").err().unwrap());
}

#[test]
fn get_refuses_a_path_that_is_not_well_formed() {
    let root = tree(1);
    let invalid = |path: &str| ConfigurationError::InvalidPath(String::from(path));
    assert_eq!(invalid(""), root.get("").err().unwrap());
    assert_eq!(invalid("a..b"), root.get("a..b").err().unwrap());
    assert_eq!(invalid(".a"), root.get(".a").err().unwrap());
    assert_eq!(invalid("a."), root.get("a.").err().unwrap());
    assert_eq!(invalid("."), root.get(".").err().unwrap());
    assert_eq!(invalid("?"), root.get("?").err().unwrap());
    assert_eq!(invalid("a.b?c"), root.get("a.b?c").err().unwrap());
    assert_eq!(invalid("a[0]"), root.get("a[0]").err().unwrap());
    assert_eq!(invalid("ключ"), root.get("ключ").err().unwrap());
    assert_eq!(invalid("a..b"), root.sub_view("a..b").err().unwrap());
    assert_eq!(Err(invalid("a/b")), root.get_integer("a/b"));
    assert_eq!(Err(invalid("")), root.get_text(""));
    assert_eq!(invalid("?"), root.get_scalar("?").err().unwrap());
}

#[test]
fn identifier_is_made_of_letters_digits_space_underscore_and_hyphen() {
    assert!(is_identifier("broker"));
    assert!(is_identifier("Broker_2-b"));
    assert!(is_identifier("az AZ 09"));
    assert!(is_identifier(" "));
    assert!(!is_identifier(""));
    assert!(!is_identifier("a.b"));
    assert!(!is_identifier("a?"));
    assert!(!is_identifier("`"));
    assert!(!is_identifier("{"));
    assert!(!is_identifier("@"));
    assert!(!is_identifier("["));
    assert!(!is_identifier("/"));
    assert!(!is_identifier(":"));
    assert!(!is_identifier("é"));
}

#[test]
fn well_formed_path_is_parsed_into_its_segments() {
    assert_eq!(Some(vec![String::from("a"), String::from("b"), String::from("c")]), parse("a.b.c"));
    assert_eq!(Some(vec![String::from("broker")]), parse("broker"));
    assert_eq!(Some(vec![String::from("my key"), String::from("x-1")]), parse("my key.x-1"));
    assert_eq!(None, parse(""));
    assert_eq!(None, parse("a..b"));
    assert_eq!(None, parse("a."));
    assert_eq!(None, parse(".a"));
    assert_eq!(None, parse("a.b!"));
}

#[test]
fn get_never_answers_with_a_sibling() {
    let root = tree(1);
    // `name` stands under `a`, not under `a.b`, and `c` under `a.b`, not under `a`.
    assert_eq!(not_found("a.b.name"), root.get("a.b.name").err().unwrap());
    assert_eq!(not_found("a.c"), root.get("a.c").err().unwrap());
    assert_eq!(not_found("c"), root.get("c").err().unwrap());
}

#[test]
fn path_that_runs_through_a_scalar_names_nothing() {
    let root = tree(1);
    assert_eq!(not_found("debug.x"), root.get("debug.x").err().unwrap());
    assert_eq!(not_found("a.b.c.d"), root.get("a.b.c.d").err().unwrap());
    assert_eq!(not_found("a.name.x.y"), root.get("a.name.x.y").err().unwrap());
    assert_eq!(not_found("debug.x"), root.sub_view("debug.x").err().unwrap());
    assert_eq!(Err(not_found("a.name.x")), root.get_text("a.name.x"));
}

#[test]
fn scalar_getters_fail_with_type_mismatch_where_a_node_is_addressed_as_a_leaf() {
    let root = tree(1);
    assert_eq!(Err(mismatch("a.b", Shape::Leaf)), root.get_integer("a.b"));
    assert_eq!(Err(mismatch("a", Shape::Leaf)), root.get_text("a"));
    assert_eq!(mismatch("a", Shape::Leaf), root.get_scalar("a").err().unwrap());
}

#[test]
fn typed_getters_give_the_value_or_say_what_was_expected() {
    let root = tree(7);
    assert_eq!(Ok(7), root.get_integer("a.b.c"));
    assert_eq!(Ok(String::from("alpha")), root.get_text("a.name"));
    assert_eq!(Ok(true), root.get_boolean("debug"));
    assert_eq!(Err(wrong_kind("a.b.c", "a string", "an integer")), root.get_text("a.b.c"));
    assert_eq!(Err(wrong_kind("a.name", "an integer", "a string")), root.get_integer("a.name"));
    assert_eq!(Err(wrong_kind("debug", "an integer", "a boolean")), root.get_integer("debug"));
    assert_eq!(Err(wrong_kind("a.name", "a boolean", "a string")), root.get_boolean("a.name"));
    assert_eq!(Err(not_found("a.b.x")), root.get_boolean("a.b.x"));
}

#[test]
fn sub_view_copies_the_subtree() {
    let root = tree(1);
    let a = root.sub_view("a").unwrap();
    assert_eq!(Ok(1), a.get_integer("b.c"));
    assert_eq!(Ok(String::from("alpha")), a.get_text("name"));
    assert_eq!(Err(not_found("debug")), a.get_boolean("debug"));
    assert_eq!(Err(not_found("a")), a.get_text("a"));
}

#[test]
fn sub_view_fails_as_get_does_and_on_a_scalar() {
    let root = tree(1);
    assert_eq!(not_found("a.x"), root.sub_view("a.x").err().unwrap());
    assert_eq!(mismatch("debug", Shape::Node), root.sub_view("debug").err().unwrap());
    assert_eq!(mismatch("a.b.c", Shape::Node), root.sub_view("a.b.c").err().unwrap());
}

#[test]
fn sub_view_is_not_changed_by_a_later_change_of_the_tree() {
    let mut root = tree(1);
    let sub = root.sub_view("a.b").unwrap();
    assert_eq!(Ok(1), sub.get_integer("c"));

    // a.b.c becomes 2 in the tree
    let mut b = ConfigNode::new();
    b.insert(String::from("c"), integer(2));
    let mut a = root.sub_view("a").unwrap();
    a.insert(String::from("b"), ConfigValue::Node(b));
    root.insert(String::from("a"), ConfigValue::Node(a));

    assert_eq!(Ok(2), root.get_integer("a.b.c"));
    assert_eq!(Ok(String::from("alpha")), root.get_text("a.name"));
    assert_eq!(Ok(1), sub.get_integer("c"));
}

#[test]
fn insert_replaces_what_stood_under_the_key() {
    let mut node = ConfigNode::new();
    node.insert(String::from("k"), integer(1));
    node.insert(String::from("other"), integer(5));
    node.insert(String::from("k"), text("now text"));
    assert_eq!(Ok(String::from("now text")), node.get_text("k"));
    assert_eq!(Ok(5), node.get_integer("other"));
    assert_eq!(
        Some(&Scalar::Text(String::from("now text"))),
        node.child(&String::from("k")).unwrap().as_scalar()
    );
    assert!(node.child(&String::from("absent")).is_none());
    assert!(ConfigNode::new().child(&String::from("k")).is_none());
}

#[test]
fn copies_hold_what_the_original_holds() {
    let root = tree(3);
    let copy = root.clone();
    assert_eq!(Ok(3), copy.get_integer("a.b.c"));
    assert_eq!(Ok(true), copy.get_boolean("debug"));
    let value = root.get("a").unwrap().clone();
    assert_eq!(Ok(3), value.as_node().unwrap().get_integer("b.c"));
    assert_eq!(Scalar::Integer(3), Scalar::Integer(3).clone());
}

#[test]
fn key_with_a_dot_is_reached_as_a_child_only() {
    let mut node = ConfigNode::new();
    node.insert(String::from("a.b"), integer(1));
    assert_eq!(Err(not_found("a.b")), node.get_integer("a.b"));
    assert!(node.child(&String::from("a.b")).is_some());
}
