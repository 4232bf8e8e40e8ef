use vstd::prelude::*;
use crate::properties::config_tree::{ConfigNode, ConfigValue, Scalar, ScalarView, ValueView};
use crate::properties::configuration_error::{ConfigurationError, ConfigurationErrorView, Shape};

verus! {

/// A value as a source of configuration holds it, in plain values.
#[derive(Debug)]
pub enum SourceValue {
    /// No value.
    Nil,
    Boolean(bool),
    Integer(i64),
    /// A number with a fraction, as its decimal text.
    Float(String),
    Text(String),
    /// Keys with their values, in the order of the source.
    Table(Vec<SourceEntry>),
    /// Values by position.
    Array(Vec<SourceValue>),
}

/// A key of a table of the source, with its value.
#[derive(Debug)]
pub struct SourceEntry {
    pub key: String,
    pub value: SourceValue,
}

/// The text of a decimal digit.
pub open spec fn digit(d: nat) -> Seq<char> {
    if d == 0 {
        "0"@
    } else if d == 1 {
        "1"@
    } else if d == 2 {
        "2"@
    } else if d == 3 {
        "3"@
    } else if d == 4 {
        "4"@
    } else if d == 5 {
        "5"@
    } else if d == 6 {
        "6"@
    } else if d == 7 {
        "7"@
    } else if d == 8 {
        "8"@
    } else {
        "9"@
    }
}

/// The decimal text of a number, without leading zeros.
pub open spec fn decimal(n: nat) -> Seq<char>
    decreases n,
{
    if n < 10 {
        digit(n)
    } else {
        decimal(n / 10) + digit(n % 10)
    }
}

fn digit_text(d: usize) -> (text: &'static str)
    requires
        d < 10,
    ensures
        text@ == digit(d as nat),
{
    if d == 0 {
        "0"
    } else if d == 1 {
        "1"
    } else if d == 2 {
        "2"
    } else if d == 3 {
        "3"
    } else if d == 4 {
        "4"
    } else if d == 5 {
        "5"
    } else if d == 6 {
        "6"
    } else if d == 7 {
        "7"
    } else if d == 8 {
        "8"
    } else {
        "9"
    }
}

/// The decimal text of `n`.
pub fn decimal_text(n: usize) -> (text: String)
    ensures
        text@ == decimal(n as nat),
    decreases n,
{
    if n < 10 {
        String::from_str(digit_text(n))
    } else {
        decimal_text(n / 10).concat(digit_text(n % 10))
    }
}

/// What a value of the source becomes in the configuration tree. A table
/// becomes a node, an array a node with each value under the decimal text
/// of its position, a number with a fraction its text. No value becomes
/// nothing: the key or position that holds it is left out.
pub open spec fn planted(value: SourceValue) -> Option<ValueView>
    decreases value, 0nat,
{
    match value {
        SourceValue::Nil => None,
        SourceValue::Boolean(b) => Some(ValueView::Scalar(ScalarView::Boolean(b))),
        SourceValue::Integer(i) => Some(ValueView::Scalar(ScalarView::Integer(i))),
        SourceValue::Float(text) => Some(ValueView::Scalar(ScalarView::Text(text@))),
        SourceValue::Text(text) => Some(ValueView::Scalar(ScalarView::Text(text@))),
        SourceValue::Table(entries) => Some(
            ValueView::Node(planted_table(entries, entries.len() as nat)),
        ),
        SourceValue::Array(items) => Some(
            ValueView::Node(planted_array(items, items.len() as nat)),
        ),
    }
}

/// The node made of the first `upto` entries of a table. Where a key
/// stands twice, its later value takes the place of its earlier one.
pub open spec fn planted_table(entries: Vec<SourceEntry>, upto: nat) -> Map<Seq<char>, ValueView>
    decreases entries, upto,
{
    if upto == 0 || upto > entries.len() {
        Map::empty()
    } else {
        let before = planted_table(entries, (upto - 1) as nat);
        match planted(entries[upto - 1].value) {
            Some(value) => before.insert(entries[upto - 1].key@, value),
            None => before,
        }
    }
}

/// The node made of the first `upto` values of an array.
pub open spec fn planted_array(items: Vec<SourceValue>, upto: nat) -> Map<Seq<char>, ValueView>
    decreases items, upto,
{
    if upto == 0 || upto > items.len() {
        Map::empty()
    } else {
        let before = planted_array(items, (upto - 1) as nat);
        match planted(items[upto - 1]) {
            Some(value) => before.insert(decimal((upto - 1) as nat), value),
            None => before,
        }
    }
}

/// The tree that a source holds: the node that its root becomes, where the
/// root is a table.
pub open spec fn source_tree(root: SourceValue) -> Result<
    Map<Seq<char>, ValueView>,
    ConfigurationErrorView,
> {
    match root {
        SourceValue::Table(entries) => Ok(planted_table(entries, entries.len() as nat)),
        _ => Err(
            ConfigurationErrorView::TypeMismatch {
                key: Seq::<char>::empty(),
                expected: Shape::Node,
            },
        ),
    }
}

impl SourceValue {
    /// What the value becomes in the configuration tree.
    pub fn plant(&self) -> (value: Option<ConfigValue>)
        ensures
            match value {
                Some(v) => planted(*self) == Some(v@),
                None => planted(*self) is None,
            },
        decreases self, 0nat,
    {
        match self {
            SourceValue::Nil => None,
            SourceValue::Boolean(b) => Some(ConfigValue::Scalar(Scalar::Boolean(*b))),
            SourceValue::Integer(i) => Some(ConfigValue::Scalar(Scalar::Integer(*i))),
            SourceValue::Float(text) => Some(ConfigValue::Scalar(Scalar::Text(text.clone()))),
            SourceValue::Text(text) => Some(ConfigValue::Scalar(Scalar::Text(text.clone()))),
            SourceValue::Table(entries) => Some(ConfigValue::Node(plant_table(entries))),
            SourceValue::Array(items) => Some(ConfigValue::Node(plant_array(items))),
        }
    }

    /// The configuration tree that the source holds. Fails with
    /// `TypeMismatch`, under the empty key, where the root is no table.
    pub fn tree(&self) -> (tree: Result<ConfigNode, ConfigurationError>)
        ensures
            match tree {
                Ok(node) => source_tree(*self) == Ok::<
                    Map<Seq<char>, ValueView>,
                    ConfigurationErrorView,
                >(node@),
                Err(e) => source_tree(*self) == Err::<
                    Map<Seq<char>, ValueView>,
                    ConfigurationErrorView,
                >(e@),
            },
    {
        match self {
            SourceValue::Table(entries) => Ok(plant_table(entries)),
            _ => Err(
                ConfigurationError::TypeMismatch { key: String::new(), expected: Shape::Node },
            ),
        }
    }
}

fn plant_table(entries: &Vec<SourceEntry>) -> (node: ConfigNode)
    ensures
        node@ == planted_table(*entries, entries.len() as nat),
    decreases entries, 1nat,
{
    let mut node = ConfigNode::new();
    let mut i: usize = 0;
    while i < entries.len()
        invariant
            i <= entries.len(),
            node@ == planted_table(*entries, i as nat),
        decreases entries.len() - i,
    {
        match entries[i].value.plant() {
            Some(value) => {
                node.insert(entries[i].key.clone(), value);
            },
            None => {},
        }
        i += 1;
    }
    node
}

fn plant_array(items: &Vec<SourceValue>) -> (node: ConfigNode)
    ensures
        node@ == planted_array(*items, items.len() as nat),
    decreases items, 1nat,
{
    let mut node = ConfigNode::new();
    let mut i: usize = 0;
    while i < items.len()
        invariant
            i <= items.len(),
            node@ == planted_array(*items, i as nat),
        decreases items.len() - i,
    {
        match items[i].plant() {
            Some(value) => {
                node.insert(decimal_text(i), value);
            },
            None => {},
        }
        i += 1;
    }
    node
}

} // verus!
