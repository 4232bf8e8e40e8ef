use k4q::properties::config_tree::Scalar;
use k4q::properties::configuration_error::{ConfigurationError, Shape};
use k4q::properties::source::{decimal_text, SourceEntry, SourceValue};

fn entry(key: &str, value: SourceValue) -> SourceEntry {
    SourceEntry { key: String::from(key), value }
}

fn not_found(key: &str) -> ConfigurationError {
    ConfigurationError::NotFound(String::from(key))
}

#[test]
fn decimal_text_has_no_leading_zeros() {
    assert_eq!("0", decimal_text(0));
    assert_eq!("7", decimal_text(7));
    assert_eq!("9", decimal_text(9));
    assert_eq!("10", decimal_text(10));
    assert_eq!("42", decimal_text(42));
    assert_eq!("100", decimal_text(100));
    assert_eq!("1234567890", decimal_text(1_234_567_890));
    assert_eq!(usize::MAX.to_string(), decimal_text(usize::MAX));
}

#[test]
fn scalars_are_planted_as_they_are() {
    let planted = |value: SourceValue| value.plant().unwrap().as_scalar().cloned();
    assert_eq!(Some(Scalar::Boolean(true)), planted(SourceValue::Boolean(true)));
    assert_eq!(Some(Scalar::Integer(-5)), planted(SourceValue::Integer(-5)));
    assert_eq!(
        Some(Scalar::Text(String::from("kafka"))),
        planted(SourceValue::Text(String::from("kafka")))
    );
}

#[test]
fn number_with_a_fraction_is_planted_as_its_text() {
    let value = SourceValue::Float(String::from("0.25")).plant().unwrap();
    assert_eq!(Some(&Scalar::Text(String::from("0.25"))), value.as_scalar());
}

#[test]
fn no_value_is_planted_as_nothing() {
    assert!(SourceValue::Nil.plant().is_none());
    let root = SourceValue::Table(vec![
        entry("kept", SourceValue::Integer(1)),
        entry("dropped", SourceValue::Nil),
    ]);
    let tree = root.tree().unwrap();
    assert_eq!(Ok(1), tree.get_integer("kept"));
    assert_eq!(Err(not_found("dropped")), tree.get_integer("dropped"));
    assert_eq!(vec![String::from("kept")], tree.keys());
}

#[test]
fn table_is_planted_as_a_node() {
    let root = SourceValue::Table(vec![
        entry(
            "broker",
            SourceValue::Table(vec![
                entry("host", SourceValue::Text(String::from("kafka.local"))),
                entry("port", SourceValue::Integer(9092)),
            ]),
        ),
        entry("debug", SourceValue::Boolean(false)),
    ]);
    let tree = root.tree().unwrap();
    assert_eq!(Ok(String::from("kafka.local")), tree.get_text("broker.host"));
    assert_eq!(Ok(9092), tree.get_integer("broker.port"));
    assert_eq!(Ok(false), tree.get_boolean("debug"));
    assert!(SourceValue::Table(Vec::new()).tree().unwrap().keys().is_empty());
}

#[test]
fn later_value_of_a_key_takes_the_place_of_the_earlier() {
    let root = SourceValue::Table(vec![
        entry("k", SourceValue::Integer(1)),
        entry("k", SourceValue::Integer(2)),
        entry("k", SourceValue::Nil),
    ]);
    assert_eq!(Ok(2), root.tree().unwrap().get_integer("k"));
}

#[test]
fn array_is_planted_as_a_node_keyed_by_position() {
    let root = SourceValue::Table(vec![entry(
        "hosts",
        SourceValue::Array(vec![
            SourceValue::Text(String::from("a")),
            SourceValue::Nil,
            SourceValue::Text(String::from("c")),
        ]),
    )]);
    let tree = root.tree().unwrap();
    assert_eq!(Ok(String::from("a")), tree.get_text("hosts.0"));
    assert_eq!(Err(not_found("hosts.1")), tree.get_text("hosts.1"));
    assert_eq!(Ok(String::from("c")), tree.get_text("hosts.2"));
    assert_eq!(Err(not_found("hosts.3")), tree.get_text("hosts.3"));
    let long = SourceValue::Array((0..12).map(SourceValue::Integer).collect());
    let node = long.plant().unwrap();
    assert_eq!(Ok(11), node.as_node().unwrap().get_integer("11"));
    assert_eq!(Ok(10), node.as_node().unwrap().get_integer("10"));
}

#[test]
fn root_that_is_no_table_holds_no_tree() {
    let mismatch = ConfigurationError::TypeMismatch { key: String::new(), expected: Shape::Node };
    assert_eq!(mismatch, SourceValue::Integer(1).tree().err().unwrap());
    assert_eq!(mismatch, SourceValue::Nil.tree().err().unwrap());
    assert_eq!(mismatch, SourceValue::Array(Vec::new()).tree().err().unwrap());
    assert_eq!(mismatch, SourceValue::Text(String::from("x")).tree().err().unwrap());
}
