use vstd::prelude::*;
use crate::domain::model::record::{Record, RecordView};

verus! {

/// A predicate on records. It holds no state: whether a record matches
/// depends on the criteria and on the record alone.
#[derive(Debug)]
pub enum Criteria {
    /// The record has a key, and it is these bytes.
    KeyEquals(Vec<u8>),
    /// Both hold. The second is evaluated only where the first holds.
    And(Box<Criteria>, Box<Criteria>),
    /// One of the two holds. The second is evaluated only where the first does not hold.
    Or(Box<Criteria>, Box<Criteria>),
    /// The inner criteria do not hold.
    Not(Box<Criteria>),
}

/// The outcome of evaluating criteria against one record, with the work it took.
pub struct Evaluation {
    pub matched: bool,
    /// How many key comparisons were made, at most `u64::MAX`.
    pub comparisons: u64,
}

/// `n` as a count that stops at `u64::MAX`.
pub open spec fn capped(n: nat) -> u64 {
    if n <= u64::MAX {
        n as u64
    } else {
        u64::MAX
    }
}

fn bytes_equal(left: &Vec<u8>, right: &Vec<u8>) -> (same: bool)
    ensures
        same == (left@ == right@),
{
    if left.len() != right.len() {
        return false;
    }
    let mut i: usize = 0;
    while i < left.len()
        invariant
            i <= left.len(),
            left.len() == right.len(),
            forall|j: int| 0 <= j < i ==> left@[j] == right@[j],
        decreases left.len() - i,
    {
        if left[i] != right[i] {
            return false;
        }
        i += 1;
    }
    assert(left@ =~= right@);
    true
}

fn capped_sum(a: u64, b: u64) -> (sum: u64)
    ensures
        sum == capped((a + b) as nat),
{
    if a > u64::MAX - b {
        u64::MAX
    } else {
        a + b
    }
}

impl Criteria {
    /// Whether a record with these contents matches.
    pub open spec fn accepts(&self, record: RecordView) -> bool
        decreases self,
    {
        match self {
            Criteria::KeyEquals(expected) => record.key == Some(expected@),
            Criteria::And(first, second) => first.accepts(record) && second.accepts(record),
            Criteria::Or(first, second) => first.accepts(record) || second.accepts(record),
            Criteria::Not(inner) => !inner.accepts(record),
        }
    }

    /// How many key comparisons an evaluation against `record` makes: the
    /// second part of `And` and of `Or` counts only where it is evaluated.
    pub open spec fn comparisons(&self, record: RecordView) -> nat
        decreases self,
    {
        match self {
            Criteria::KeyEquals(_) => 1,
            Criteria::And(first, second) => first.comparisons(record) + if first.accepts(record) {
                second.comparisons(record)
            } else {
                0
            },
            Criteria::Or(first, second) => first.comparisons(record) + if first.accepts(record) {
                0
            } else {
                second.comparisons(record)
            },
            Criteria::Not(inner) => inner.comparisons(record),
        }
    }

    /// Evaluates the criteria against `record`. Never fails. This is the
    /// counted evaluation, without its count: the second part of `And` and
    /// of `Or` is evaluated only where the first does not decide.
    pub fn matches(&self, record: &Record) -> (matched: bool)
        ensures
            matched == self.accepts(record@),
    {
        self.evaluate(record).matched
    }

    /// Evaluates the criteria against `record` and counts the key comparisons made.
    pub fn evaluate(&self, record: &Record) -> (outcome: Evaluation)
        ensures
            outcome.matched == self.accepts(record@),
            outcome.comparisons == capped(self.comparisons(record@)),
        decreases self,
    {
        match self {
            Criteria::KeyEquals(expected) => {
                let matched = match &record.key {
                    Some(key) => bytes_equal(key, expected),
                    None => false,
                };
                Evaluation { matched, comparisons: 1 }
            },
            Criteria::And(first, second) => {
                let left = first.evaluate(record);
                if left.matched {
                    let right = second.evaluate(record);
                    Evaluation {
                        matched: right.matched,
                        comparisons: capped_sum(left.comparisons, right.comparisons),
                    }
                } else {
                    left
                }
            },
            Criteria::Or(first, second) => {
                let left = first.evaluate(record);
                if left.matched {
                    left
                } else {
                    let right = second.evaluate(record);
                    Evaluation {
                        matched: right.matched,
                        comparisons: capped_sum(left.comparisons, right.comparisons),
                    }
                }
            },
            Criteria::Not(inner) => {
                let outcome = inner.evaluate(record);
                Evaluation { matched: !outcome.matched, comparisons: outcome.comparisons }
            },
        }
    }

    /// Where the first part of `And` does not hold, the whole does not hold,
    /// and the second part is not evaluated: the evaluation makes the
    /// comparisons of the first part and no others.
    pub proof fn lemma_and_short_circuits(first: Criteria, second: Criteria, record: RecordView)
        requires
            !first.accepts(record),
        ensures
            !Criteria::And(Box::new(first), Box::new(second)).accepts(record),
            Criteria::And(Box::new(first), Box::new(second)).comparisons(record)
                == first.comparisons(record),
    {
    }

    /// Where the first part of `Or` holds, the whole holds, and the second
    /// part is not evaluated.
    pub proof fn lemma_or_short_circuits(first: Criteria, second: Criteria, record: RecordView)
        requires
            first.accepts(record),
        ensures
            Criteria::Or(Box::new(first), Box::new(second)).accepts(record),
            Criteria::Or(Box::new(first), Box::new(second)).comparisons(record)
                == first.comparisons(record),
    {
    }
}

} // verus!
