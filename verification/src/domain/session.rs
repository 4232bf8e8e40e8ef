use vstd::prelude::*;
use crate::properties::config_tree::{integer_at, resolve, text_at, ValueView};
use crate::properties::configuration_error::{ConfigurationError, ConfigurationErrorView};
use crate::properties::configuration_loader::ApplicationConfig;
use crate::properties::path::{
    identifier, lemma_split_path_of_joined, lemma_split_path_of_plain, split_path, well_formed,
};

verus! {

/// What a session with the broker is opened with.
#[derive(Debug, PartialEq)]
pub struct SessionSettings {
    pub host: String,
    pub port: Option<u16>,
}

/// Session settings as mathematical values.
pub struct SessionSettingsView {
    pub host: Seq<char>,
    pub port: Option<u16>,
}

impl View for SessionSettings {
    type V = SessionSettingsView;

    open spec fn view(&self) -> SessionSettingsView {
        SessionSettingsView { host: self.host@, port: self.port }
    }
}

/// The error for an integer under `path` that is no port number.
pub open spec fn not_a_port(path: Seq<char>) -> ConfigurationErrorView {
    ConfigurationErrorView::DeserializationError {
        origin: None,
        key: Some(path),
        expected: "a port number"@,
        actual: "an integer out of range"@,
    }
}

/// The port under `path`: none where nothing stands there, an error where
/// what stands there is no integer from 0 to 65535.
pub open spec fn port_at(node: Map<Seq<char>, ValueView>, path: Seq<char>) -> Result<
    Option<u16>,
    ConfigurationErrorView,
> {
    match integer_at(node, path) {
        Ok(i) => if 0 <= i <= 65535 {
            Ok(Some(i as u16))
        } else {
            Err(not_a_port(path))
        },
        Err(ConfigurationErrorView::NotFound(_)) => Ok(None),
        Err(e) => Err(e),
    }
}

/// The session settings that a configuration holds: the host under
/// `broker.host`, which must be there, and the port under `broker.port`.
pub open spec fn settings_of(node: Map<Seq<char>, ValueView>) -> Result<
    SessionSettingsView,
    ConfigurationErrorView,
> {
    match text_at(node, "broker.host"@) {
        Err(e) => Err(e),
        Ok(host) => match port_at(node, "broker.port"@) {
            Err(e) => Err(e),
            Ok(port) => Ok(SessionSettingsView { host, port }),
        },
    }
}

/// The path to the host is well formed, and these are its segments.
pub proof fn lemma_host_path()
    ensures
        split_path("broker.host"@) == seq!["broker"@, "host"@],
        well_formed("broker.host"@),
{
    reveal_strlit("broker.host");
    reveal_strlit("broker");
    reveal_strlit("host");
    assert("broker.host"@ =~= "broker"@ + seq!['.'] + "host"@);
    lemma_split_path_of_plain("broker"@);
    lemma_split_path_of_plain("host"@);
    lemma_split_path_of_joined("broker"@, "host"@);
    assert(seq!["broker"@] + seq!["host"@] =~= seq!["broker"@, "host"@]);
    assert("broker"@ =~= seq!['b', 'r', 'o', 'k', 'e', 'r']);
    assert("host"@ =~= seq!['h', 'o', 's', 't']);
    assert(identifier("broker"@));
    assert(identifier("host"@));
}

/// A configuration that holds nothing under `host` in `broker`, or nothing
/// under `broker`, has no session settings: reading them fails with
/// `NotFound`, which names `broker.host`, whatever else the tree holds.
pub proof fn lemma_missing_host_is_not_found(tree: Map<Seq<char>, ValueView>)
    requires
        resolve(tree, seq!["broker"@, "host"@]) is None,
    ensures
        settings_of(tree) == Err::<SessionSettingsView, ConfigurationErrorView>(
            ConfigurationErrorView::NotFound("broker.host"@),
        ),
{
    lemma_host_path();
}

/// Reads from the configuration what a broker session is made from.
pub struct SessionFactory {}

impl SessionFactory {
    /// The settings of the session. Fails before anything is opened where
    /// the configuration lacks the host or holds a value of the wrong type.
    pub fn settings(config: &ApplicationConfig) -> (settings: Result<
        SessionSettings,
        ConfigurationError,
    >)
        ensures
            match settings {
                Ok(s) => settings_of(config@) == Ok::<SessionSettingsView, ConfigurationErrorView>(
                    s@,
                ),
                Err(e) => settings_of(config@) == Err::<
                    SessionSettingsView,
                    ConfigurationErrorView,
                >(e@),
            },
    {
        let tree = config.tree();
        let host = match tree.get_text("broker.host") {
            Ok(host) => host,
            Err(e) => {
                return Err(e);
            },
        };
        let port = match tree.get_integer("broker.port") {
            Ok(i) => {
                if 0 <= i && i <= 65535 {
                    Some(i as u16)
                } else {
                    return Err(
                        ConfigurationError::DeserializationError {
                            origin: None,
                            key: Some(String::from_str("broker.port")),
                            expected: String::from_str("a port number"),
                            actual: String::from_str("an integer out of range"),
                        },
                    );
                }
            },
            Err(ConfigurationError::NotFound(_)) => None,
            Err(e) => {
                return Err(e);
            },
        };
        Ok(SessionSettings { host, port })
    }
}

} // verus!
