use vstd::prelude::*;

verus! {

/// The two shapes a value of the configuration tree can have.
#[derive(Debug, PartialEq, Eq, Structural, Clone, Copy)]
pub enum Shape {
    /// A scalar.
    Leaf,
    /// A nested table.
    Node,
}

/// Why the configuration cannot be used.
#[derive(Debug, PartialEq)]
#[allow(inconsistent_fields)]
pub enum ConfigurationError {
    /// A segment of the path names nothing. Holds the path that was asked for.
    NotFound(String),
    /// A leaf stands where the path asks for a node, or a node where it asks for a leaf.
    TypeMismatch { key: String, expected: Shape },
    /// The value under `key` cannot be read as the type asked for.
    DeserializationError {
        origin: Option<String>,
        key: Option<String>,
        expected: String,
        actual: String,
    },
    /// The source of the configuration could not be read.
    SourceParseError { origin: Option<String>, cause: String },
    /// A path is not well formed. Holds what is wrong: the path as it was
    /// given, or what the parser of the source says of it.
    InvalidPath(String),
}

/// The characters of an optional string.
pub open spec fn text_view(text: Option<String>) -> Option<Seq<char>> {
    match text {
        Some(t) => Some(t@),
        None => None,
    }
}

/// A configuration error as mathematical values.
#[allow(inconsistent_fields)]
pub enum ConfigurationErrorView {
    NotFound(Seq<char>),
    TypeMismatch { key: Seq<char>, expected: Shape },
    DeserializationError {
        origin: Option<Seq<char>>,
        key: Option<Seq<char>>,
        expected: Seq<char>,
        actual: Seq<char>,
    },
    SourceParseError { origin: Option<Seq<char>>, cause: Seq<char> },
    InvalidPath(Seq<char>),
}

impl View for ConfigurationError {
    type V = ConfigurationErrorView;

    open spec fn view(&self) -> ConfigurationErrorView {
        match self {
            ConfigurationError::NotFound(key) => ConfigurationErrorView::NotFound(key@),
            ConfigurationError::TypeMismatch { key, expected } => ConfigurationErrorView::TypeMismatch {
                key: key@,
                expected: *expected,
            },
            ConfigurationError::DeserializationError { origin, key, expected, actual } =>
                ConfigurationErrorView::DeserializationError {
                    origin: text_view(*origin),
                    key: text_view(*key),
                    expected: expected@,
                    actual: actual@,
                },
            ConfigurationError::SourceParseError { origin, cause } => ConfigurationErrorView::SourceParseError {
                origin: text_view(*origin),
                cause: cause@,
            },
            ConfigurationError::InvalidPath(detail) => ConfigurationErrorView::InvalidPath(detail@),
        }
    }
}

/// The text added to a message when the location of the configuration is known.
pub open spec fn location_note(origin: Option<Seq<char>>) -> Seq<char> {
    match origin {
        Some(location) => ": "@ + location,
        None => Seq::empty(),
    }
}

/// The text added to a message when the failing key is known.
pub open spec fn key_note(key: Option<Seq<char>>) -> Seq<char> {
    match key {
        Some(k) => " Parsed key: "@ + k,
        None => Seq::empty(),
    }
}

/// The advice given when a value has another type than the one asked for.
pub open spec fn type_advice(
    origin: Option<Seq<char>>,
    key: Option<Seq<char>>,
    expected: Seq<char>,
    actual: Seq<char>,
) -> Seq<char> {
    "Correct configuration file"@ + location_note(origin) + "."@ + key_note(key) + " Expected: "@
        + expected + ", but encountered: "@ + actual
}

/// The advice given when the source could not be parsed.
pub open spec fn parse_advice(origin: Option<Seq<char>>, cause: Seq<char>) -> Seq<char> {
    match origin {
        None => "Correct configuration file. An error occurred during parsing: "@ + cause,
        Some(file) => "Correct configuration file: "@ + file
            + ". An error occurred during parsing: "@ + cause,
    }
}

/// The advice given when a path is not well formed.
pub open spec fn path_advice(detail: Seq<char>) -> Seq<char> {
    "Check supplied configuration file location path. The error: "@ + detail
}

/// The advice given when a property is missing.
pub open spec fn missing_advice(key: Seq<char>) -> Seq<char> {
    "Check configuration file location. "@ + key
}

/// How a shape is called in a message.
pub open spec fn shape_name(shape: Shape) -> Seq<char> {
    match shape {
        Shape::Leaf => "a value"@,
        Shape::Node => "a table"@,
    }
}

/// The shape that is not `shape`.
pub open spec fn other_shape(shape: Shape) -> Shape {
    match shape {
        Shape::Leaf => Shape::Node,
        Shape::Node => Shape::Leaf,
    }
}

/// The error with `location` as its origin, where it is of a kind that has
/// an origin and holds none. An origin that is known is kept.
pub open spec fn located(error: ConfigurationErrorView, location: Seq<char>)
    -> ConfigurationErrorView {
    match error {
        ConfigurationErrorView::DeserializationError { origin: None, key, expected, actual } =>
            ConfigurationErrorView::DeserializationError {
                origin: Some(location),
                key,
                expected,
                actual,
            },
        ConfigurationErrorView::SourceParseError { origin: None, cause } =>
            ConfigurationErrorView::SourceParseError { origin: Some(location), cause },
        _ => error,
    }
}

/// What the user is told about a configuration error.
pub open spec fn message_of(error: ConfigurationErrorView) -> Seq<char> {
    match error {
        ConfigurationErrorView::NotFound(key) => missing_advice(key),
        ConfigurationErrorView::TypeMismatch { key, expected } => type_advice(
            None,
            Some(key),
            shape_name(expected),
            shape_name(other_shape(expected)),
        ),
        ConfigurationErrorView::DeserializationError { origin, key, expected, actual } => type_advice(
            origin,
            key,
            expected,
            actual,
        ),
        ConfigurationErrorView::SourceParseError { origin, cause } => parse_advice(origin, cause),
        ConfigurationErrorView::InvalidPath(detail) => path_advice(detail),
    }
}

/// The text of `type_advice`.
pub fn write_type_advice(
    origin: &Option<String>,
    key: &Option<String>,
    expected: &str,
    actual: &str,
) -> (text: String)
    ensures
        text@ == type_advice(text_view(*origin), text_view(*key), expected@, actual@),
{
    let mut text = String::from_str("Correct configuration file");
    match origin {
        Some(location) => {
            text.append(": ");
            text.append(location.as_str());
        },
        None => {},
    }
    text.append(".");
    match key {
        Some(k) => {
            text.append(" Parsed key: ");
            text.append(k.as_str());
        },
        None => {},
    }
    text.append(" Expected: ");
    text.append(expected);
    text.append(", but encountered: ");
    text.append(actual);
    text
}

/// The text of `parse_advice`.
pub fn write_parse_advice(origin: &Option<String>, cause: &str) -> (text: String)
    ensures
        text@ == parse_advice(text_view(*origin), cause@),
{
    match origin {
        None => String::from_str(
            "Correct configuration file. An error occurred during parsing: ",
        ).concat(cause),
        Some(file) => String::from_str("Correct configuration file: ").concat(
            file.as_str(),
        ).concat(". An error occurred during parsing: ").concat(cause),
    }
}

/// The text of `path_advice`.
pub fn write_path_advice(detail: &str) -> (text: String)
    ensures
        text@ == path_advice(detail@),
{
    String::from_str("Check supplied configuration file location path. The error: ").concat(detail)
}

/// The text of `missing_advice`.
pub fn write_missing_advice(key: &str) -> (text: String)
    ensures
        text@ == missing_advice(key@),
{
    String::from_str("Check configuration file location. ").concat(key)
}

impl Shape {
    /// The name of the shape in a message.
    pub fn name(&self) -> (name: &'static str)
        ensures
            name@ == shape_name(*self),
    {
        match self {
            Shape::Leaf => "a value",
            Shape::Node => "a table",
        }
    }

    /// The other shape.
    pub fn other(&self) -> (shape: Shape)
        ensures
            shape == other_shape(*self),
    {
        match self {
            Shape::Leaf => Shape::Node,
            Shape::Node => Shape::Leaf,
        }
    }
}

impl ConfigurationError {
    /// The error with `location` as its origin, where it has none.
    pub fn located(self, location: &str) -> (error: ConfigurationError)
        ensures
            error@ == located(self@, location@),
    {
        match self {
            ConfigurationError::DeserializationError { origin: None, key, expected, actual } =>
                ConfigurationError::DeserializationError {
                    origin: Some(String::from_str(location)),
                    key,
                    expected,
                    actual,
                },
            ConfigurationError::SourceParseError { origin: None, cause } =>
                ConfigurationError::SourceParseError {
                    origin: Some(String::from_str(location)),
                    cause,
                },
            other => other,
        }
    }

    /// The error phrased for a user who is to correct the configuration file.
    pub fn message(&self) -> (text: String)
        ensures
            text@ == message_of(self@),
    {
        match self {
            ConfigurationError::NotFound(key) => write_missing_advice(key.as_str()),
            ConfigurationError::TypeMismatch { key, expected } => {
                let failing = Some(key.clone());
                write_type_advice(&None, &failing, expected.name(), expected.other().name())
            },
            ConfigurationError::DeserializationError { origin, key, expected, actual } => {
                write_type_advice(origin, key, expected.as_str(), actual.as_str())
            },
            ConfigurationError::SourceParseError { origin, cause } => {
                write_parse_advice(origin, cause.as_str())
            },
            ConfigurationError::InvalidPath(detail) => write_path_advice(detail.as_str()),
        }
    }
}

} // verus!
