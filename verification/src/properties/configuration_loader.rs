use vstd::prelude::*;
use crate::properties::config_tree::{sub_tree, ConfigNode, ValueView};
use crate::properties::configuration_error::{
    located, message_of,    missing_advice, parse_advice, path_advice, write_path_advice, text_view, type_advice, write_missing_advice,
    write_parse_advice, write_type_advice, ConfigurationError, ConfigurationErrorView,
};

use crate::properties::source::{source_tree, SourceValue};

verus! {

/// `config::ConfigError`, the error of the configuration source. It is
/// carried through as it is; nothing is known of what it holds.
#[verifier::external_type_specification]
#[verifier::external_body]
pub struct ExConfigError(config::ConfigError);

/// Why the configuration source could not be turned into properties, in
/// plain values: one variant for each kind of failure the source reports.
#[derive(Debug)]
pub enum LoaderFault {
    /// The configuration can no longer be changed.
    Frozen,
    /// A property was asked for that the source does not hold.
    NotFound(String),
    /// The path to a property could not be parsed.
    PathParse(String),
    /// The source could not be parsed in its format.
    FileParse { uri: Option<String>, cause: String },
    /// A value could not be read as the requested type.
    Type { origin: Option<String>, unexpected: String, expected: String, key: Option<String> },
    /// A message from the source itself.
    Message(String),
    /// A failure of foreign origin.
    Foreign(String),
}

/// What the user is told about a fault, phrased as advice on the configuration file.
pub open spec fn description(fault: LoaderFault) -> Seq<char> {
    match fault {
        LoaderFault::Frozen => "Internal error - configuration is frozen and cannot be changed"@,
        LoaderFault::NotFound(key) => missing_advice(key@),
        LoaderFault::PathParse(kind) => path_advice(kind@),
        LoaderFault::FileParse { uri, cause } => parse_advice(text_view(uri), cause@),
        LoaderFault::Type { origin, unexpected, expected, key } => type_advice(
            text_view(origin),
            text_view(key),
            expected@,
            unexpected@,
        ),
        LoaderFault::Message(m) => "An issue with the configuration file: "@ + m@,
        LoaderFault::Foreign(e) => "An issue with the configuration file: "@ + e@,
    }
}

/// The configuration error that a fault of the source amounts to. A missing
/// property, a value of the wrong type and a path that cannot be parsed keep
/// their kind; every other fault is a failure to read the source, with the
/// fault's own text as its cause.
pub open spec fn rejection(fault: LoaderFault) -> ConfigurationErrorView {
    match fault {
        LoaderFault::Frozen => ConfigurationErrorView::SourceParseError {
            origin: None,
            cause: "configuration is frozen"@,
        },
        LoaderFault::NotFound(key) => ConfigurationErrorView::NotFound(key@),
        LoaderFault::PathParse(kind) => ConfigurationErrorView::InvalidPath(kind@),
        LoaderFault::FileParse { uri, cause } => ConfigurationErrorView::SourceParseError {
            origin: text_view(uri),
            cause: cause@,
        },
        LoaderFault::Type { origin, unexpected, expected, key } =>
            ConfigurationErrorView::DeserializationError {
                origin: text_view(origin),
                key: text_view(key),
                expected: expected@,
                actual: unexpected@,
            },
        LoaderFault::Message(m) => ConfigurationErrorView::SourceParseError {
            origin: None,
            cause: m@,
        },
        LoaderFault::Foreign(e) => ConfigurationErrorView::SourceParseError {
            origin: None,
            cause: e@,
        },
    }
}

/// The fault that an error of the configuration source stands for: its
/// variant, with the fields of that variant as plain values. The text of a
/// cause that the error carries as an error object is not part of it: that
/// text is the cause's own to give, and may differ from machine to machine.
pub uninterp spec fn fault_named(err: config::ConfigError) -> LoaderFault;

/// Whether `fault` is `named` in all but the text of a cause carried as an
/// error object: the same variant, with the same key, kind, location,
/// expected and unexpected value, and message.
pub open spec fn same_but_cause(fault: LoaderFault, named: LoaderFault) -> bool {
    match (fault, named) {
        (LoaderFault::Frozen, LoaderFault::Frozen) => true,
        (LoaderFault::NotFound(key), LoaderFault::NotFound(other)) => key@ == other@,
        (LoaderFault::PathParse(kind), LoaderFault::PathParse(other)) => kind@ == other@,
        (LoaderFault::FileParse { uri, .. }, LoaderFault::FileParse { uri: other, .. }) =>
            text_view(uri) == text_view(other),
        (
            LoaderFault::Type { origin, unexpected, expected, key },
            LoaderFault::Type {
                origin: other_origin,
                unexpected: other_unexpected,
                expected: other_expected,
                key: other_key,
            },
        ) => {
            &&& text_view(origin) == text_view(other_origin)
            &&& unexpected@ == other_unexpected@
            &&& expected@ == other_expected@
            &&& text_view(key) == text_view(other_key)
        },
        (LoaderFault::Message(m), LoaderFault::Message(other)) => m@ == other@,
        (LoaderFault::Foreign(_), LoaderFault::Foreign(_)) => true,
        _ => false,
    }
}

/// Tells the variants of `config::ConfigError` apart and hands each one's
/// fields over as plain values. The kind of a path error is given by
/// `nom::error::ErrorKind::description`; an unexpected value and the causes
/// carried as error objects are given by their `Display` text. The result
/// is the fault that the error stands for, in all but the text of such a
/// cause, of which nothing is claimed.
#[verifier::external_body]
fn fault_of(err: config::ConfigError) -> (fault: LoaderFault)
    ensures
        same_but_cause(fault, fault_named(err)),
{
    match err {
        config::ConfigError::Frozen => LoaderFault::Frozen,
        config::ConfigError::NotFound(key) => LoaderFault::NotFound(key),
        config::ConfigError::PathParse(kind) => LoaderFault::PathParse(kind.description().to_string()),
        config::ConfigError::FileParse { uri, cause } => LoaderFault::FileParse { uri, cause: cause.to_string() },
        config::ConfigError::Type { origin, unexpected, expected, key } =>
            LoaderFault::Type { origin, unexpected: unexpected.to_string(), expected: expected.to_string(), key },
        config::ConfigError::Message(m) => LoaderFault::Message(m),
        config::ConfigError::Foreign(e) => LoaderFault::Foreign(e.to_string()),
    }
}

/// An error of the configuration source as it is handed on: the
/// configuration error that it amounts to, and what the user is told.
#[derive(Debug, PartialEq)]
pub struct Refusal {
    pub error: ConfigurationError,
    pub advice: String,
}

/// Turns what the configuration source reports into properties or into an
/// error that a user can act on.
pub struct ConfigurationLoader {}

impl ConfigurationLoader {
    /// The message for `fault`.
    pub fn describe(fault: &LoaderFault) -> (text: String)
        ensures
            text@ == description(*fault),
    {
        match fault {
            LoaderFault::Frozen => String::from_str(
                "Internal error - configuration is frozen and cannot be changed",
            ),
            LoaderFault::NotFound(key) => write_missing_advice(key.as_str()),
            LoaderFault::PathParse(kind) => write_path_advice(kind.as_str()),
            LoaderFault::FileParse { uri, cause } => write_parse_advice(uri, cause.as_str()),
            LoaderFault::Type { origin, unexpected, expected, key } => {
                write_type_advice(origin, key, expected.as_str(), unexpected.as_str())
            },
            LoaderFault::Message(m) => {
                String::from_str("An issue with the configuration file: ").concat(m.as_str())
            },
            LoaderFault::Foreign(e) => {
                String::from_str("An issue with the configuration file: ").concat(e.as_str())
            },
        }
    }

    /// The configuration error that `fault` amounts to.
    pub fn rejected(fault: LoaderFault) -> (error: ConfigurationError)
        ensures
            error@ == rejection(fault),
    {
        match fault {
            LoaderFault::Frozen => ConfigurationError::SourceParseError {
                origin: None,
                cause: String::from_str("configuration is frozen"),
            },
            LoaderFault::NotFound(key) => ConfigurationError::NotFound(key),
            LoaderFault::PathParse(kind) => ConfigurationError::InvalidPath(kind),
            LoaderFault::FileParse { uri, cause } => ConfigurationError::SourceParseError {
                origin: uri,
                cause,
            },
            LoaderFault::Type { origin, unexpected, expected, key } =>
                ConfigurationError::DeserializationError {
                    origin,
                    key,
                    expected,
                    actual: unexpected,
                },
            LoaderFault::Message(m) => ConfigurationError::SourceParseError {
                origin: None,
                cause: m,
            },
            LoaderFault::Foreign(e) => ConfigurationError::SourceParseError {
                origin: None,
                cause: e,
            },
        }
    }

    /// Takes an error of the configuration source apart: the configuration
    /// error is the one that the fault amounts to which the error stands
    /// for, and the advice is the description of that fault.
    pub fn refused(err: config::ConfigError) -> (refusal: Refusal)
        ensures
            exists|fault: LoaderFault|
                {
                    &&& same_but_cause(fault, fault_named(err))
                    &&& refusal.error@ == rejection(fault)
                    &&& refusal.advice@ == description(fault)
                },
    {
        let fault = fault_of(err);
        let ghost witness = fault;
        let advice = Self::describe(&fault);
        let error = Self::rejected(fault);
        assert(same_but_cause(witness, fault_named(err)) && error@ == rejection(witness) && advice@
            == description(witness));
        Refusal { error, advice }
    }

    /// Takes what reading the source gave: the tree becomes the
    /// application's properties, an error of the source is refused.
    pub fn loaded(outcome: Result<ConfigNode, config::ConfigError>) -> (properties: Result<
        ApplicationConfig,
        Refusal,
    >)
        ensures
            match outcome {
                Ok(tree) => properties matches Ok(config) && config@ == tree@,
                Err(err) => properties matches Err(refusal) && exists|fault: LoaderFault|
                    {
                        &&& same_but_cause(fault, fault_named(err))
                        &&& refusal.error@ == rejection(fault)
                        &&& refusal.advice@ == description(fault)
                    },
            },
    {
        match outcome {
            Ok(tree) => Ok(ApplicationConfig::new(tree)),
            Err(err) => Err(Self::refused(err)),
        }
    }

    /// Takes what reading the source at `location` gave. What the source
    /// holds becomes the application's properties, where its root is a
    /// table. An error of the source is refused, and the configuration
    /// error names `location` as its origin where the source named none: so
    /// a source that is absent or cannot be read is reported with its origin
    /// and its cause.
    pub fn loaded_from(
        location: &str,
        outcome: Result<SourceValue, config::ConfigError>,
    ) -> (properties: Result<ApplicationConfig, Refusal>)
        ensures
            match outcome {
                Ok(root) => match source_tree(root) {
                    Ok(tree) => properties matches Ok(config) && config@ == tree,
                    Err(e) => properties matches Err(refusal) && refusal.error@ == e
                        && refusal.advice@ == message_of(e),
                },
                Err(err) => properties matches Err(refusal) && exists|fault: LoaderFault|
                    {
                        &&& same_but_cause(fault, fault_named(err))
                        &&& refusal.error@ == located(rejection(fault), location@)
                        &&& refusal.advice@ == description(fault)
                    },
            },
    {
        match outcome {
            Ok(root) => match root.tree() {
                Ok(tree) => Ok(ApplicationConfig::new(tree)),
                Err(error) => {
                    let advice = error.message();
                    Err(Refusal { error, advice })
                },
            },
            Err(err) => {
                let refusal = Self::refused(err);
                let ghost witness = choose|fault: LoaderFault|
                    {
                        &&& same_but_cause(fault, fault_named(err))
                        &&& refusal.error@ == rejection(fault)
                        &&& refusal.advice@ == description(fault)
                    };
                let error = refusal.error.located(location);
                let advice = refusal.advice;
                assert(same_but_cause(witness, fault_named(err)) && error@ == located(
                    rejection(witness),
                    location@,
                ) && advice@ == description(witness));
                Err(Refusal { error, advice })
            },
        }
    }

    /// The message for an error of the configuration source: the description
    /// of the fault that the error stands for.
    pub fn description_of(err: config::ConfigError) -> (text: String)
        ensures
            exists|fault: LoaderFault|
                same_but_cause(fault, fault_named(err)) && text@ == description(fault),
    {
        let fault = fault_of(err);
        let ghost witness = fault;
        let text = Self::describe(&fault);
        assert(same_but_cause(witness, fault_named(err)) && text@ == description(witness));
        text
    }
}

/// The properties of the application: the root of its configuration tree.
#[derive(Debug)]
pub struct ApplicationConfig {
    config: ConfigNode,
}

impl View for ApplicationConfig {
    type V = Map<Seq<char>, ValueView>;

    closed spec fn view(&self) -> Map<Seq<char>, ValueView> {
        self.config@
    }
}

impl ApplicationConfig {
    pub fn new(config: ConfigNode) -> (properties: ApplicationConfig)
        ensures
            properties@ == config@,
    {
        ApplicationConfig { config }
    }

    /// The configuration tree itself.
    pub fn tree(&self) -> (tree: &ConfigNode)
        ensures
            tree@ == self@,
    {
        &self.config
    }

    /// The properties under `prefix`, as properties of their own: an
    /// independent copy of that subtree and of nothing else.
    pub fn properties_by(&self, prefix: &str) -> (sub: Result<
        ApplicationConfig,
        ConfigurationError,
    >)
        ensures
            match sub {
                Ok(properties) => sub_tree(self@, prefix@) == Ok::<
                    Map<Seq<char>, ValueView>,
                    ConfigurationErrorView,
                >(properties@),
                Err(e) => sub_tree(self@, prefix@) == Err::<
                    Map<Seq<char>, ValueView>,
                    ConfigurationErrorView,
                >(e@),
            },
    {
        match self.config.sub_view(prefix) {
            Ok(node) => Ok(ApplicationConfig { config: node }),
            Err(e) => Err(e),
        }
    }
}

} // verus!
