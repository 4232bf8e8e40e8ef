use k4q::domain::action::{ActionState, Progress};
use k4q::domain::finder::{Demand, RecordFinder, ScanEvent};
use k4q::domain::model::criteria::Criteria;
use k4q::domain::model::error::QueryError;
use k4q::domain::model::record::Record;
use k4q::domain::model::topic_name::TopicName;
use k4q::domain::query::{QueryActionFactory, QueryExecution};
use k4q::domain::session::SessionSettings;
use k4q::properties::config_tree::{ConfigNode, ConfigValue, Scalar};
use k4q::properties::configuration_error::ConfigurationError;
use k4q::properties::configuration_loader::ApplicationConfig;

fn topics(names: &[&str]) -> Vec<TopicName> {
    names.iter().map(|n| TopicName::new(n).unwrap()).collect()
}

fn record(offset: u64, key: &str) -> Record {
    Record {
        topic: TopicName::new("orders").unwrap(),
        partition: 0,
        offset,
        key: Some(key.as_bytes().to_vec()),
        value: None,
        timestamp: 0,
    }
}

fn execution(names: &[&str], bound: Option<u64>) -> QueryExecution {
    let factory = QueryActionFactory::new(RecordFinder::new(), bound);
    let action = factory.create(Criteria::KeyEquals(b"42".to_vec()), topics(names));
    assert_eq!(ActionState::Idle, action.state());
    action.execute()
}

fn counts(progress: Progress) -> (u64, u64) {
    (progress.items_scanned(), progress.items_matched())
}

#[test]
fn executed_action_runs_and_asks_for_the_first_topic() {
    let running = execution(&["orders", "returns"], None);
    assert_eq!(ActionState::Running, running.state());
    assert_eq!(Demand::Pull(0), running.demand());
    assert_eq!((0, 0), counts(running.progress()));
}

#[test]
fn progress_is_reported_once_for_each_record_pulled() {
    let mut running = execution(&["orders"], None);

    let step = running.supply(ScanEvent::Fetched(record(0, "41")));
    assert_eq!(None, step.item);
    assert_eq!(Some((1, 0)), step.progress.map(counts));

    let step = running.supply(ScanEvent::Fetched(record(1, "42")));
    assert_eq!(Some(Ok(record(1, "42"))), step.item);
    assert_eq!(Some((2, 1)), step.progress.map(counts));

    let step = running.supply(ScanEvent::Undecodable { partition: 0, offset: 2 });
    assert!(matches!(step.item, Some(Err(QueryError::RecordDecodeFailed { .. }))));
    assert!(step.progress.is_none());
    assert_eq!(ActionState::Running, running.state());

    let step = running.supply(ScanEvent::Fetched(record(3, "42")));
    assert_eq!(Some((3, 2)), step.progress.map(counts));

    let step = running.supply(ScanEvent::EndOfTopic);
    assert_eq!(None, step.item);
    assert!(step.progress.is_none());
    assert_eq!(ActionState::Completed, running.state());
    assert_eq!((3, 2), counts(running.progress()));
    assert_eq!(Demand::Stop, running.demand());
}

#[test]
fn action_fails_by_a_failure_of_the_session_only() {
    let mut running = execution(&["missing-topic", "orders"], None);
    let step = running.supply(ScanEvent::OpenFailed);
    assert_eq!(
        Some(Err(QueryError::TopicOpenFailed(TopicName::new("missing-topic").unwrap()))),
        step.item
    );
    assert_eq!(ActionState::Running, running.state());
    let step = running.supply(ScanEvent::SessionLost(String::from("authentication failed")));
    assert_eq!(
        Some(Err(QueryError::SessionFatal(String::from("authentication failed")))),
        step.item
    );
    assert!(step.progress.is_none());
    assert_eq!(ActionState::Failed, running.state());
    assert_eq!(Demand::Stop, running.demand());
}

#[test]
fn ended_action_takes_nothing_in() {
    let mut running = execution(&["orders"], Some(1));
    let step = running.supply(ScanEvent::Fetched(record(0, "42")));
    assert_eq!(Some((1, 1)), step.progress.map(counts));
    assert_eq!(ActionState::Completed, running.state());
    let step = running.supply(ScanEvent::Fetched(record(1, "42")));
    assert_eq!(None, step.item);
    assert!(step.progress.is_none());
    assert_eq!((1, 1), counts(running.progress()));
    assert_eq!(ActionState::Completed, running.state());
}

#[test]
fn progress_counts_stop_at_the_largest_number() {
    let mut progress = Progress::new();
    assert_eq!((0, 0), counts(progress));
    progress = progress.counted(true);
    progress = progress.counted(false);
    assert_eq!((2, 1), counts(progress));
    assert_eq!((3, 1), counts(progress.counted(false)));
    assert_eq!((3, 2), counts(progress.counted(true)));
}

fn properties(broker: Vec<(&str, Scalar)>) -> ApplicationConfig {
    let mut node = ConfigNode::new();
    for (key, value) in broker {
        node.insert(String::from(key), ConfigValue::Scalar(value));
    }
    let mut root = ConfigNode::new();
    root.insert(String::from("broker"), ConfigValue::Node(node));
    root.insert(String::from("console"), ConfigValue::Node(ConfigNode::new()));
    ApplicationConfig::new(root)
}

#[test]
fn query_is_not_started_where_the_broker_host_is_missing() {
    let factory = QueryActionFactory::new(RecordFinder::new(), None);
    let action = factory.create(Criteria::KeyEquals(b"42".to_vec()), topics(&["orders"]));
    let without_host = properties(vec![("port", Scalar::Integer(9092))]);
    let started = action.execute_with(&without_host);
    assert_eq!(
        ConfigurationError::NotFound(String::from("broker.host")),
        started.err().unwrap()
    );

    let action = factory.create(Criteria::KeyEquals(b"42".to_vec()), topics(&["orders"]));
    let empty = ApplicationConfig::new(ConfigNode::new());
    assert_eq!(
        ConfigurationError::NotFound(String::from("broker.host")),
        action.execute_with(&empty).err().unwrap()
    );
}

#[test]
fn query_is_started_with_the_settings_of_its_session() {
    let factory = QueryActionFactory::new(RecordFinder::new(), Some(2));
    let action = factory.create(Criteria::KeyEquals(b"42".to_vec()), topics(&["orders"]));
    let configured = properties(vec![
        ("host", Scalar::Text(String::from("kafka.local"))),
        ("port", Scalar::Integer(9093)),
    ]);
    let mut started = action.execute_with(&configured).unwrap();
    assert_eq!(
        SessionSettings { host: String::from("kafka.local"), port: Some(9093) },
        started.settings
    );
    assert_eq!(ActionState::Running, started.execution.state());
    assert_eq!(Demand::Pull(0), started.execution.demand());
    assert_eq!((0, 0), counts(started.execution.progress()));
    let step = started.execution.supply(ScanEvent::Fetched(record(0, "42")));
    assert_eq!(Some(Ok(record(0, "42"))), step.item);
}

#[test]
fn query_is_not_started_where_a_setting_has_the_wrong_type() {
    let factory = QueryActionFactory::new(RecordFinder::new(), None);
    let action = factory.create(Criteria::KeyEquals(b"42".to_vec()), topics(&["orders"]));
    let wrong = properties(vec![("host", Scalar::Integer(7))]);
    assert_eq!(
        ConfigurationError::DeserializationError {
            origin: None,
            key: Some(String::from("broker.host")),
            expected: String::from("a string"),
            actual: String::from("an integer"),
        },
        action.execute_with(&wrong).err().unwrap()
    );
}
