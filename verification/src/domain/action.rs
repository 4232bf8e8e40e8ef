use vstd::prelude::*;

verus! {

/// Where an action stands. It starts idle, runs once executed, and ends
/// completed or, where the session fails, failed.
#[derive(Debug, PartialEq, Eq, Structural, Clone, Copy)]
pub enum ActionState {
    Idle,
    Running,
    Completed,
    Failed,
}

/// The count after one more, stopping at `u64::MAX`.
pub open spec fn one_more(count: u64) -> u64 {
    if count < u64::MAX {
        (count + 1) as u64
    } else {
        count
    }
}

/// How far an action has come: the records pulled and, of those, the
/// records that matched.
#[derive(Debug, PartialEq, Eq, Clone, Copy)]
pub struct Progress {
    items_scanned: u64,
    items_matched: u64,
}

/// Progress as mathematical values.
pub struct ProgressView {
    pub items_scanned: u64,
    pub items_matched: u64,
}

impl ProgressView {
    /// The progress after one more record, matched or not.
    pub open spec fn counted(self, matched: bool) -> ProgressView {
        ProgressView {
            items_scanned: one_more(self.items_scanned),
            items_matched: if matched {
                one_more(self.items_matched)
            } else {
                self.items_matched
            },
        }
    }

    /// Neither count of `self` is above that of `later`.
    pub open spec fn not_after(self, later: ProgressView) -> bool {
        self.items_scanned <= later.items_scanned && self.items_matched <= later.items_matched
    }

    /// Counting never takes progress back, and never counts more matches
    /// than records.
    pub proof fn lemma_counting_never_decreases(self, matched: bool)
        ensures
            self.not_after(self.counted(matched)),
            self.items_matched <= self.items_scanned ==> self.counted(matched).items_matched
                <= self.counted(matched).items_scanned,
    {
    }
}

impl View for Progress {
    type V = ProgressView;

    closed spec fn view(&self) -> ProgressView {
        ProgressView { items_scanned: self.items_scanned, items_matched: self.items_matched }
    }
}

impl Progress {
    #[verifier::type_invariant]
    spec fn matches_are_scanned(self) -> bool {
        self.items_matched <= self.items_scanned
    }

    /// No record pulled yet.
    pub fn new() -> (progress: Progress)
        ensures
            progress@ == (ProgressView { items_scanned: 0, items_matched: 0 }),
    {
        Progress { items_scanned: 0, items_matched: 0 }
    }

    pub fn items_scanned(&self) -> (count: u64)
        ensures
            count == self@.items_scanned,
            self@.items_matched <= count,
    {
        proof {
            use_type_invariant(self);
        }
        self.items_scanned
    }

    pub fn items_matched(&self) -> (count: u64)
        ensures
            count == self@.items_matched,
            count <= self@.items_scanned,
    {
        proof {
            use_type_invariant(self);
        }
        self.items_matched
    }

    /// The progress after one more record.
    pub fn counted(&self, matched: bool) -> (progress: Progress)
        ensures
            progress@ == self@.counted(matched),
    {
        proof {
            use_type_invariant(self);
        }
        let items_scanned = if self.items_scanned < u64::MAX {
            self.items_scanned + 1
        } else {
            self.items_scanned
        };
        let items_matched = if matched && self.items_matched < u64::MAX {
            self.items_matched + 1
        } else {
            self.items_matched
        };
        Progress { items_scanned, items_matched }
    }
}

} // verus!
