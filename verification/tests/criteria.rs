use k4q::domain::model::criteria::Criteria;
use k4q::domain::model::record::Record;
use k4q::domain::model::topic_name::TopicName;

fn record_with_key(key: Option<&str>) -> Record {
    Record {
        topic: TopicName::new("orders").unwrap(),
        partition: 0,
        offset: 7,
        key: key.map(|k| k.as_bytes().to_vec()),
        value: Some(b"payload".to_vec()),
        timestamp: 1_700_000_000,
    }
}

fn key_equals(key: &str) -> Criteria {
    Criteria::KeyEquals(key.as_bytes().to_vec())
}

#[test]
fn key_equals_matches_the_same_bytes_only() {
    let criteria = key_equals("42");
    assert!(criteria.matches(&record_with_key(Some("42"))));
    assert!(!criteria.matches(&record_with_key(Some("41"))));
    assert!(!criteria.matches(&record_with_key(Some("420"))));
    assert!(!criteria.matches(&record_with_key(Some("4"))));
    assert!(!criteria.matches(&record_with_key(Some(""))));
}

#[test]
fn key_equals_does_not_match_a_record_without_key() {
    assert!(!key_equals("42").matches(&record_with_key(None)));
    assert!(!key_equals("").matches(&record_with_key(None)));
    assert!(key_equals("").matches(&record_with_key(Some(""))));
}

#[test]
fn matches_gives_the_same_answer_each_time() {
    let criteria = Criteria::Or(
        Box::new(key_equals("41")),
        Box::new(Criteria::Not(Box::new(key_equals("42")))),
    );
    let record = record_with_key(Some("43"));
    let first = criteria.matches(&record);
    for _ in 0..10 {
        assert_eq!(first, criteria.matches(&record));
    }
    assert!(first);
    assert_eq!(record_with_key(Some("43")), record);
}

#[test]
fn and_is_false_where_its_first_part_is_false_and_skips_the_second() {
    let criteria = Criteria::And(Box::new(key_equals("41")), Box::new(key_equals("42")));
    let record = record_with_key(Some("42"));
    assert!(!criteria.matches(&record));
    let outcome = criteria.evaluate(&record);
    assert!(!outcome.matched);
    assert_eq!(1, outcome.comparisons);
}

#[test]
fn and_evaluates_both_parts_where_the_first_holds() {
    let same = Criteria::And(Box::new(key_equals("42")), Box::new(key_equals("42")));
    let outcome = same.evaluate(&record_with_key(Some("42")));
    assert!(outcome.matched);
    assert_eq!(2, outcome.comparisons);
    let other = Criteria::And(Box::new(key_equals("42")), Box::new(key_equals("43")));
    let outcome = other.evaluate(&record_with_key(Some("42")));
    assert!(!outcome.matched);
    assert_eq!(2, outcome.comparisons);
}

#[test]
fn or_is_true_where_its_first_part_is_true_and_skips_the_second() {
    let criteria = Criteria::Or(Box::new(key_equals("42")), Box::new(key_equals("43")));
    let outcome = criteria.evaluate(&record_with_key(Some("42")));
    assert!(outcome.matched);
    assert_eq!(1, outcome.comparisons);
    let outcome = criteria.evaluate(&record_with_key(Some("43")));
    assert!(outcome.matched);
    assert_eq!(2, outcome.comparisons);
    let outcome = criteria.evaluate(&record_with_key(Some("44")));
    assert!(!outcome.matched);
    assert_eq!(2, outcome.comparisons);
}

#[test]
fn not_inverts_and_counts_the_inner_comparisons() {
    let criteria = Criteria::Not(Box::new(key_equals("42")));
    assert!(!criteria.matches(&record_with_key(Some("42"))));
    assert!(criteria.matches(&record_with_key(Some("41"))));
    assert!(criteria.matches(&record_with_key(None)));
    assert_eq!(1, criteria.evaluate(&record_with_key(None)).comparisons);
}

#[test]
fn nested_criteria_count_only_what_is_evaluated() {
    // (k = 1 and k = 2) or (not k = 3): the first `and` stops after one comparison.
    let criteria = Criteria::Or(
        Box::new(Criteria::And(Box::new(key_equals("1")), Box::new(key_equals("2")))),
        Box::new(Criteria::Not(Box::new(key_equals("3")))),
    );
    let outcome = criteria.evaluate(&record_with_key(Some("9")));
    assert!(outcome.matched);
    assert_eq!(2, outcome.comparisons);
    assert_eq!(outcome.matched, criteria.matches(&record_with_key(Some("9"))));
}
