use vstd::prelude::*;
use crate::domain::model::criteria::Criteria;
use crate::domain::model::error::{QueryError, QueryErrorView};
use crate::domain::model::record::{Record, RecordView};
use crate::domain::model::topic_name::TopicName;

verus! {

/// An item of the result stream.
pub type ScanItem = Result<Record, QueryError>;

/// An item of the result stream as mathematical values.
pub type ItemView = Result<RecordView, QueryErrorView>;

/// What an item holds.
pub open spec fn item_view(item: ScanItem) -> ItemView {
    match item {
        Ok(record) => Ok(record@),
        Err(error) => Err(error@),
    }
}

/// What an item holds, where there is one.
pub open spec fn emitted_view(item: Option<ScanItem>) -> Option<ItemView> {
    match item {
        Some(i) => Some(item_view(i)),
        None => None,
    }
}

/// What each item of a sequence holds.
pub open spec fn item_views(items: Seq<ScanItem>) -> Seq<ItemView> {
    items.map_values(|i: ScanItem| item_view(i))
}

/// The names of a sequence of topics.
pub open spec fn names(topics: Seq<TopicName>) -> Seq<Seq<char>> {
    topics.map_values(|t: TopicName| t@)
}

/// What came of one pull on the scan of the current topic.
#[derive(Debug)]
pub enum ScanEvent {
    /// No scan could be opened on the topic.
    OpenFailed,
    /// The scan gave its next record.
    Fetched(Record),
    /// The scan met a record that could not be decoded.
    Undecodable { partition: u32, offset: u64 },
    /// The scan has no more records.
    EndOfTopic,
    /// The session failed.
    SessionLost(String),
}

/// A scan event as mathematical values.
pub enum ScanEventView {
    OpenFailed,
    Fetched(RecordView),
    Undecodable { partition: u32, offset: u64 },
    EndOfTopic,
    SessionLost(Seq<char>),
}

impl View for ScanEvent {
    type V = ScanEventView;

    open spec fn view(&self) -> ScanEventView {
        match self {
            ScanEvent::OpenFailed => ScanEventView::OpenFailed,
            ScanEvent::Fetched(record) => ScanEventView::Fetched(record@),
            ScanEvent::Undecodable { partition, offset } => ScanEventView::Undecodable {
                partition: *partition,
                offset: *offset,
            },
            ScanEvent::EndOfTopic => ScanEventView::EndOfTopic,
            ScanEvent::SessionLost(cause) => ScanEventView::SessionLost(cause@),
        }
    }
}

/// What each event of a sequence holds.
pub open spec fn event_views(events: Seq<ScanEvent>) -> Seq<ScanEventView> {
    events.map_values(|e: ScanEvent| e@)
}

/// Where a scan stands.
#[derive(Debug, PartialEq, Eq, Structural, Clone, Copy)]
pub enum Phase {
    /// Records are still to be pulled.
    Running,
    /// The topics are exhausted or the bound is reached.
    Completed,
    /// The session failed.
    Failed,
}

/// What a scan asks of whoever drives it.
#[derive(Debug, PartialEq, Eq, Structural, Clone, Copy)]
pub enum Demand {
    /// Pull once on the scan of the topic at this position, opening the scan first
    /// where it is not open, and supply what came of it.
    Pull(usize),
    /// Pull nothing more, on any topic.
    Stop,
}

/// The state of a scan as mathematical values.
pub struct ScanView {
    pub topics: Seq<Seq<char>>,
    pub criteria: Criteria,
    /// The position of the topic that is being scanned.
    pub current: nat,
    /// How many matches may still be returned; `None` where there is no bound.
    pub budget: Option<nat>,
    pub phase: Phase,
}

/// How many items of a sequence are records.
pub open spec fn count_records(items: Seq<ItemView>) -> nat
    decreases items.len(),
{
    if items.len() == 0 {
        0
    } else {
        count_records(items.drop_last()) + if items.last() is Ok {
            1nat
        } else {
            0nat
        }
    }
}

impl ScanView {
    /// The state in which a scan of `topics` starts.
    pub open spec fn started(topics: Seq<Seq<char>>, criteria: Criteria, bound: Option<u64>)
        -> ScanView {
        ScanView {
            topics,
            criteria,
            current: 0,
            budget: match bound {
                Some(n) => Some(n as nat),
                None => None,
            },
            phase: if topics.len() == 0 || bound == Some(0u64) {
                Phase::Completed
            } else {
                Phase::Running
            },
        }
    }

    /// While a scan runs, its current topic is one of its topics and its
    /// budget is not used up.
    pub open spec fn well_formed(self) -> bool {
        self.phase == Phase::Running ==> self.current < self.topics.len() && self.budget != Some(
            0nat,
        )
    }

    /// What the scan asks for next.
    pub open spec fn demand(self) -> Demand {
        if self.phase == Phase::Running {
            Demand::Pull(self.current as usize)
        } else {
            Demand::Stop
        }
    }

    /// The state once the current topic is done with.
    pub open spec fn next_topic(self) -> ScanView {
        if self.current + 1 < self.topics.len() {
            ScanView { current: self.current + 1, ..self }
        } else {
            ScanView { phase: Phase::Completed, ..self }
        }
    }

    /// The state once one more match has been returned.
    pub open spec fn spent(self) -> ScanView {
        match self.budget {
            None => self,
            Some(n) => if n <= 1 {
                ScanView { budget: Some(0nat), phase: Phase::Completed, ..self }
            } else {
                ScanView { budget: Some((n - 1) as nat), ..self }
            },
        }
    }

    /// The item that the scan yields on an event: a record that matches, and
    /// every failure, as the error that stands for it. A scan that has
    /// stopped yields nothing.
    pub open spec fn yielded(self, event: ScanEventView) -> Option<ItemView> {
        if self.phase != Phase::Running {
            None
        } else {
            match event {
                ScanEventView::OpenFailed => Some(
                    Err(QueryErrorView::TopicOpenFailed(self.topics[self.current as int])),
                ),
                ScanEventView::Fetched(record) => if self.criteria.accepts(record) {
                    Some(Ok(record))
                } else {
                    None
                },
                ScanEventView::Undecodable { partition, offset } => Some(
                    Err(
                        QueryErrorView::RecordDecodeFailed {
                            topic: self.topics[self.current as int],
                            partition,
                            offset,
                        },
                    ),
                ),
                ScanEventView::EndOfTopic => None,
                ScanEventView::SessionLost(cause) => Some(Err(QueryErrorView::SessionFatal(cause))),
            }
        }
    }

    /// The state after an event. A topic that cannot be opened or has ended
    /// gives way to the next one; a match uses up budget; a failure of the
    /// session ends the scan; a record that does not match or cannot be
    /// decoded leaves the state as it is.
    pub open spec fn advanced(self, event: ScanEventView) -> ScanView {
        if self.phase != Phase::Running {
            self
        } else {
            match event {
                ScanEventView::OpenFailed => self.next_topic(),
                ScanEventView::Fetched(record) => if self.criteria.accepts(record) {
                    self.spent()
                } else {
                    self
                },
                ScanEventView::Undecodable { .. } => self,
                ScanEventView::EndOfTopic => self.next_topic(),
                ScanEventView::SessionLost(_) => ScanView { phase: Phase::Failed, ..self },
            }
        }
    }

    /// The state after a sequence of events.
    pub open spec fn after(self, events: Seq<ScanEventView>) -> ScanView
        decreases events.len(),
    {
        if events.len() == 0 {
            self
        } else {
            self.after(events.drop_last()).advanced(events.last())
        }
    }

    /// The stream that the scan yields over a sequence of events.
    pub open spec fn run(self, events: Seq<ScanEventView>) -> Seq<ItemView>
        decreases events.len(),
    {
        if events.len() == 0 {
            Seq::empty()
        } else {
            let before = self.run(events.drop_last());
            match self.after(events.drop_last()).yielded(events.last()) {
                Some(item) => before.push(item),
                None => before,
            }
        }
    }
}

/// Whether two records stand in the same partition of the same topic.
pub open spec fn same_partition(left: RecordView, right: RecordView) -> bool {
    left.topic == right.topic && left.partition == right.partition
}

/// Whether two events, the first supplied before the second, keep the order
/// of offsets: where both are records of one partition, the offset of the
/// first is not above that of the second.
pub open spec fn fetched_in_order(first: ScanEventView, second: ScanEventView) -> bool {
    first is Fetched && second is Fetched && same_partition(first->Fetched_0, second->Fetched_0)
        ==> first->Fetched_0.offset <= second->Fetched_0.offset
}

/// Whether the records of each partition are fetched by ascending offsets.
pub open spec fn offsets_ascend(events: Seq<ScanEventView>) -> bool {
    forall|a: int, b: int|
        0 <= a < b < events.len() ==> fetched_in_order(#[trigger] events[a], #[trigger] events[b])
}

impl ScanView {
    /// Events leave the topics and the criteria of a scan as they are, and a
    /// well-formed scan well formed.
    pub proof fn lemma_after_keeps_shape(self, events: Seq<ScanEventView>)
        ensures
            self.after(events).topics == self.topics,
            self.after(events).criteria == self.criteria,
            self.after(events).budget is Some == self.budget is Some,
            self.well_formed() ==> self.after(events).well_formed(),
        decreases events.len(),
    {
        if events.len() > 0 {
            self.lemma_after_keeps_shape(events.drop_last());
        }
    }

    /// A scan that has stopped stays as it is and yields nothing, whatever
    /// is supplied to it.
    pub proof fn lemma_stopped_scan_yields_nothing(self, events: Seq<ScanEventView>)
        requires
            self.phase != Phase::Running,
        ensures
            self.after(events) == self,
            self.run(events) == Seq::<ItemView>::empty(),
        decreases events.len(),
    {
        if events.len() > 0 {
            self.lemma_stopped_scan_yields_nothing(events.drop_last());
        }
    }

    /// The stream over two sequences of events, one after the other, is the
    /// stream over the first followed by the stream that the scan yields
    /// over the second from where the first left it.
    pub proof fn lemma_run_of_concatenation(
        self,
        first: Seq<ScanEventView>,
        second: Seq<ScanEventView>,
    )
        ensures
            self.after(first + second) == self.after(first).after(second),
            self.run(first + second) == self.run(first) + self.after(first).run(second),
        decreases second.len(),
    {
        if second.len() == 0 {
            assert(first + second =~= first);
            assert(self.run(first) + Seq::<ItemView>::empty() =~= self.run(first));
        } else {
            assert((first + second).drop_last() =~= first + second.drop_last());
            assert((first + second).last() == second.last());
            self.lemma_run_of_concatenation(first, second.drop_last());
            let middle = self.after(first).after(second.drop_last());
            match middle.yielded(second.last()) {
                Some(item) => {
                    assert((self.run(first) + self.after(first).run(second.drop_last())).push(item)
                        =~= self.run(first) + self.after(first).run(second.drop_last()).push(
                        item,
                    ));
                },
                None => {},
            }
        }
    }

    /// A bounded scan accounts for its matches: the records it has yielded
    /// and the budget it has left add up to the bound it started with. So it
    /// never yields more records than the bound.
    pub proof fn lemma_bound_is_kept(self, events: Seq<ScanEventView>, bound: nat)
        requires
            self.well_formed(),
            self.budget == Some(bound),
        ensures
            self.after(events).budget matches Some(left) && count_records(self.run(events)) + left
                == bound,
            count_records(self.run(events)) <= bound,
        decreases events.len(),
    {
        if events.len() > 0 {
            let before = events.drop_last();
            self.lemma_bound_is_kept(before, bound);
            self.lemma_after_keeps_shape(before);
            let state = self.after(before);
            match state.yielded(events.last()) {
                Some(item) => {
                    assert(self.run(before).push(item).drop_last() =~= self.run(before));
                },
                None => {},
            }
        }
    }

    /// Once a bounded scan has yielded as many records as its bound, it has
    /// stopped: it asks for no more pulls and yields nothing for whatever
    /// still comes, though records that match may remain.
    pub proof fn lemma_nothing_follows_the_bound(
        self,
        events: Seq<ScanEventView>,
        more: Seq<ScanEventView>,
        bound: nat,
    )
        requires
            self.well_formed(),
            self.budget == Some(bound),
            count_records(self.run(events)) == bound,
        ensures
            self.after(events).demand() == Demand::Stop,
            self.run(events + more) == self.run(events),
    {
        self.lemma_bound_is_kept(events, bound);
        self.lemma_after_keeps_shape(events);
        self.lemma_run_of_concatenation(events, more);
        self.after(events).lemma_stopped_scan_yields_nothing(more);
        assert(self.run(events) + Seq::<ItemView>::empty() =~= self.run(events));
    }

    /// Every record in the stream matches the criteria and was fetched.
    pub proof fn lemma_records_match(self, events: Seq<ScanEventView>, i: int)
        requires
            0 <= i < self.run(events).len(),
            self.run(events)[i] is Ok,
        ensures
            self.criteria.accepts(self.run(events)[i]->Ok_0),
            exists|j: int|
                0 <= j < events.len() && events[j] == ScanEventView::Fetched(
                    self.run(events)[i]->Ok_0,
                ),
        decreases events.len(),
    {
        if events.len() > 0 {
            let before = events.drop_last();
            self.lemma_after_keeps_shape(before);
            if i < self.run(before).len() {
                self.lemma_records_match(before, i);
                let j = choose|j: int|
                    0 <= j < before.len() && before[j] == ScanEventView::Fetched(
                        self.run(before)[i]->Ok_0,
                    );
                assert(events[j] == before[j]);
            } else {
                assert(events[events.len() - 1] == events.last());
            }
        }
    }

    /// The records of the stream come in the order in which they were
    /// fetched: of two records in the stream, the earlier one was fetched
    /// before the later one. So the records of one partition keep the order
    /// of their offsets.
    pub proof fn lemma_stream_keeps_order(self, events: Seq<ScanEventView>, i: int, k: int)
        requires
            0 <= i < k < self.run(events).len(),
            self.run(events)[i] is Ok,
            self.run(events)[k] is Ok,
        ensures
            exists|a: int, b: int|
                0 <= a < b < events.len() && events[a] == ScanEventView::Fetched(
                    self.run(events)[i]->Ok_0,
                ) && events[b] == ScanEventView::Fetched(self.run(events)[k]->Ok_0),
        decreases events.len(),
    {
        if events.len() > 0 {
            let before = events.drop_last();
            if k < self.run(before).len() {
                self.lemma_stream_keeps_order(before, i, k);
                let (a, b) = choose|a: int, b: int|
                    0 <= a < b < before.len() && before[a] == ScanEventView::Fetched(
                        self.run(before)[i]->Ok_0,
                    ) && before[b] == ScanEventView::Fetched(self.run(before)[k]->Ok_0);
                assert(events[a] == before[a] && events[b] == before[b]);
            } else {
                self.lemma_records_match(before, i);
                let a = choose|a: int|
                    0 <= a < before.len() && before[a] == ScanEventView::Fetched(
                        self.run(before)[i]->Ok_0,
                    );
                let b = events.len() - 1;
                assert(events[a] == before[a]);
                assert(events[b] == events.last());
            }
        }
    }

    /// Where the records of each partition are fetched by ascending
    /// offsets, the records of each partition stand in the stream by
    /// ascending offsets.
    pub proof fn lemma_partition_order_is_kept(self, events: Seq<ScanEventView>, i: int, k: int)
        requires
            offsets_ascend(events),
            0 <= i < k < self.run(events).len(),
            self.run(events)[i] is Ok,
            self.run(events)[k] is Ok,
            same_partition(self.run(events)[i]->Ok_0, self.run(events)[k]->Ok_0),
        ensures
            self.run(events)[i]->Ok_0.offset <= self.run(events)[k]->Ok_0.offset,
    {
        self.lemma_stream_keeps_order(events, i, k);
        let (a, b) = choose|a: int, b: int|
            0 <= a < b < events.len() && events[a] == ScanEventView::Fetched(
                self.run(events)[i]->Ok_0,
            ) && events[b] == ScanEventView::Fetched(self.run(events)[k]->Ok_0);
        assert(fetched_in_order(events[a], events[b]));
    }

    /// No match is dropped: a record that is fetched while the scan runs,
    /// and that matches, is in the stream, right after what the events
    /// before it yielded.
    pub proof fn lemma_no_match_is_dropped(self, events: Seq<ScanEventView>, j: int)
        requires
            0 <= j < events.len(),
            events[j] matches ScanEventView::Fetched(record) && self.criteria.accepts(record),
            self.after(events.take(j)).phase == Phase::Running,
        ensures
            self.run(events.take(j)).len() < self.run(events).len(),
            self.run(events)[self.run(events.take(j)).len() as int] == Ok::<
                RecordView,
                QueryErrorView,
            >(events[j]->Fetched_0),
    {
        let before = events.take(j);
        let one = seq![events[j]];
        let rest = events.skip(j + 1);
        let state = self.after(before);
        self.lemma_after_keeps_shape(before);
        assert(events =~= before + (one + rest));
        self.lemma_run_of_concatenation(before, one + rest);
        state.lemma_run_of_concatenation(one, rest);
        assert(one.drop_last() =~= Seq::<ScanEventView>::empty());
        assert(one.last() == events[j]);
        assert(state.after(one.drop_last()) == state);
        assert(state.run(one.drop_last()) =~= Seq::<ItemView>::empty());
        assert(state.yielded(events[j]) == Some(
            Ok::<RecordView, QueryErrorView>(events[j]->Fetched_0),
        ));
        assert(state.run(one) =~= seq![
            Ok::<RecordView, QueryErrorView>(events[j]->Fetched_0),
        ]);
    }

    /// A failure of the session is the last item of the stream.
    pub proof fn lemma_fatal_error_is_last(self, events: Seq<ScanEventView>, i: int)
        requires
            0 <= i < self.run(events).len(),
            self.run(events)[i] matches Err(e) && e is SessionFatal,
        ensures
            i == self.run(events).len() - 1,
            self.after(events).phase == Phase::Failed,
        decreases events.len(),
    {
        if events.len() > 0 {
            let before = events.drop_last();
            let state = self.after(before);
            if i < self.run(before).len() {
                self.lemma_fatal_error_is_last(before, i);
            } else {
            }
        }
    }

    /// No failure is dropped: while the scan runs, a topic that cannot be
    /// opened, a record that cannot be decoded and a failure of the session
    /// each put their error into the stream.
    pub proof fn lemma_no_failure_is_dropped(self, event: ScanEventView)
        requires
            self.phase == Phase::Running,
            event is OpenFailed || event is Undecodable || event is SessionLost,
        ensures
            self.yielded(event) matches Some(Err(e)) && (e is SessionFatal <==> event
                is SessionLost),
            event is SessionLost <==> self.advanced(event).phase == Phase::Failed,
    {
    }
}

/// Yields, for a set of topics and criteria, the lazy stream of the records
/// that match, with the failures met on the way.
#[derive(Debug, Clone, Copy)]
pub struct RecordFinder {}

/// Whether a sequence of names is a set of topics: not empty, no name twice.
pub open spec fn topic_set(topics: Seq<Seq<char>>) -> bool {
    topics.len() > 0 && topics.no_duplicates()
}

/// Whether `topics` is a set of topics.
pub fn is_topic_set(topics: &Vec<TopicName>) -> (valid: bool)
    ensures
        valid == topic_set(names(topics@)),
{
    if topics.len() == 0 {
        return false;
    }
    let mut i: usize = 0;
    while i < topics.len()
        invariant
            i <= topics.len(),
            forall|a: int, b: int| 0 <= a < b < i ==> names(topics@)[a] != names(topics@)[b],
        decreases topics.len() - i,
    {
        let mut j: usize = 0;
        while j < i
            invariant
                j <= i < topics.len(),
                forall|a: int| 0 <= a < j ==> names(topics@)[a] != names(topics@)[i as int],
            decreases i - j,
        {
            if topics[j] == topics[i] {
                assert(names(topics@)[j as int] == names(topics@)[i as int]);
                return false;
            }
            j += 1;
        }
        i += 1;
    }
    true
}

/// What the user asked for: the set of topics to search, the criteria to
/// search them by, and how many matches to return at most.
#[derive(Debug)]
pub struct Query {
    topics: Vec<TopicName>,
    criteria: Criteria,
    bound: Option<u64>,
}

/// A query as mathematical values.
pub struct QueryView {
    pub topics: Seq<Seq<char>>,
    pub criteria: Criteria,
    pub bound: Option<u64>,
}

impl View for Query {
    type V = QueryView;

    closed spec fn view(&self) -> QueryView {
        QueryView { topics: names(self.topics@), criteria: self.criteria, bound: self.bound }
    }
}

impl Query {
    #[verifier::type_invariant]
    spec fn topics_are_a_set(self) -> bool {
        topic_set(names(self.topics@))
    }

    /// The query for `topics`, where they are a set of topics: not empty, no
    /// topic twice.
    pub fn new(topics: Vec<TopicName>, criteria: Criteria, bound: Option<u64>) -> (query: Option<
        Query,
    >)
        ensures
            query is Some <==> topic_set(names(topics@)),
            query matches Some(q) ==> q@ == (QueryView { topics: names(topics@), criteria, bound }),
    {
        if is_topic_set(&topics) {
            Some(Query { topics, criteria, bound })
        } else {
            None
        }
    }

    pub fn topics(&self) -> (topics: &Vec<TopicName>)
        ensures
            names(topics@) == self@.topics,
            topic_set(self@.topics),
    {
        proof {
            use_type_invariant(self);
        }
        &self.topics
    }

    pub fn criteria(&self) -> (criteria: &Criteria)
        ensures
            *criteria == self@.criteria,
    {
        &self.criteria
    }

    pub fn bound(&self) -> (bound: Option<u64>)
        ensures
            bound == self@.bound,
    {
        self.bound
    }
}

/// A scan in progress: the result stream of one query, pulled item by item.
/// It performs no reading itself. It says which topic to pull on next, takes
/// what came of the pull, and says which item, if any, the stream yields for
/// it.
#[derive(Debug)]
pub struct RecordScan {
    topics: Vec<TopicName>,
    criteria: Criteria,
    current: usize,
    budget: Option<u64>,
    phase: Phase,
}

impl View for RecordScan {
    type V = ScanView;

    closed spec fn view(&self) -> ScanView {
        ScanView {
            topics: names(self.topics@),
            criteria: self.criteria,
            current: self.current as nat,
            budget: match self.budget {
                Some(n) => Some(n as nat),
                None => None,
            },
            phase: self.phase,
        }
    }
}

impl RecordFinder {
    pub fn new() -> (finder: RecordFinder) {
        RecordFinder {  }
    }

    /// Starts the scan for `query`. Nothing is opened or read before the
    /// first pull.
    pub fn find(&self, query: Query) -> (scan: RecordScan)
        ensures
            scan@ == ScanView::started(query@.topics, query@.criteria, query@.bound),
            scan@.well_formed(),
            scan@.phase == Phase::Running <==> query@.bound != Some(0u64),
    {
        proof {
            use_type_invariant(&query);
        }
        let stopped = query.topics.len() == 0 || match query.bound {
            Some(n) => n == 0,
            None => false,
        };
        RecordScan {
            topics: query.topics,
            criteria: query.criteria,
            current: 0,
            budget: query.bound,
            phase: if stopped {
                Phase::Completed
            } else {
                Phase::Running
            },
        }
    }
}

impl RecordScan {
    #[verifier::type_invariant]
    spec fn running_within_bounds(self) -> bool {
        self.phase == Phase::Running ==> self.current < self.topics@.len() && self.budget != Some(
            0u64,
        )
    }

    /// Where the scan stands.
    pub fn phase(&self) -> (phase: Phase)
        ensures
            phase == self@.phase,
    {
        self.phase
    }

    /// How many matches may still be returned; `None` where there is no bound.
    pub fn budget(&self) -> (budget: Option<u64>)
        ensures
            match budget {
                Some(n) => self@.budget == Some(n as nat),
                None => self@.budget is None,
            },
    {
        self.budget
    }

    /// The topic that is being scanned, while the scan runs.
    pub fn current_topic(&self) -> (topic: Option<&TopicName>)
        ensures
            self@.well_formed(),
            match topic {
                Some(t) => self@.phase == Phase::Running && t@ == self@.topics[self@.current as int],
                None => self@.phase != Phase::Running,
            },
    {
        proof {
            use_type_invariant(self);
        }
        match self.phase {
            Phase::Running => Some(&self.topics[self.current]),
            _ => None,
        }
    }

    /// What the scan asks for next: one pull on the current topic while it
    /// runs, nothing once it has stopped.
    pub fn demand(&self) -> (demand: Demand)
        ensures
            demand == self@.demand(),
    {
        match self.phase {
            Phase::Running => Demand::Pull(self.current),
            _ => Demand::Stop,
        }
    }

    fn leave_topic(&mut self)
        requires
            old(self)@.phase == Phase::Running,
        ensures
            final(self)@ == old(self)@.next_topic(),
    {
        proof {
            use_type_invariant(&*self);
        }
        let count = self.topics.len();
        if self.current + 1 < count {
            self.current = self.current + 1;
        } else {
            self.phase = Phase::Completed;
        }
    }

    fn spend(&mut self)
        requires
            old(self)@.phase == Phase::Running,
        ensures
            final(self)@ == old(self)@.spent(),
    {
        proof {
            use_type_invariant(&*self);
        }
        match self.budget {
            None => {},
            Some(n) => {
                if n <= 1 {
                    self.phase = Phase::Completed;
                    self.budget = Some(0);
                } else {
                    self.budget = Some(n - 1);
                }
            },
        }
    }

    /// Takes what came of the pull that the scan asked for, and gives the
    /// item that the stream yields for it, if any. A scan that has stopped
    /// takes nothing in and yields nothing.
    pub fn supply(&mut self, event: ScanEvent) -> (item: Option<ScanItem>)
        ensures
            final(self)@ == old(self)@.advanced(event@),
            emitted_view(item) == old(self)@.yielded(event@),
    {
        proof {
            use_type_invariant(&*self);
        }
        match self.phase {
            Phase::Running => {},
            _ => {
                return None;
            },
        }
        match event {
            ScanEvent::OpenFailed => {
                let topic = self.topics[self.current].clone();
                self.leave_topic();
                Some(Err(QueryError::TopicOpenFailed(topic)))
            },
            ScanEvent::Fetched(record) => {
                if self.criteria.matches(&record) {
                    self.spend();
                    Some(Ok(record))
                } else {
                    None
                }
            },
            ScanEvent::Undecodable { partition, offset } => {
                let topic = self.topics[self.current].clone();
                Some(Err(QueryError::RecordDecodeFailed { topic, partition, offset }))
            },
            ScanEvent::EndOfTopic => {
                self.leave_topic();
                None
            },
            ScanEvent::SessionLost(cause) => {
                self.phase = Phase::Failed;
                Some(Err(QueryError::SessionFatal(cause)))
            },
        }
    }

    /// Supplies a whole sequence of events, one after the other, and gives
    /// the stream that the scan yields over it.
    pub fn supply_all(&mut self, events: Vec<ScanEvent>) -> (items: Vec<ScanItem>)
        ensures
            final(self)@ == old(self)@.after(event_views(events@)),
            item_views(items@) == old(self)@.run(event_views(events@)),
    {
        let ghost start = self@;
        let ghost all = event_views(events@);
        let mut items: Vec<ScanItem> = Vec::new();
        proof {
            assert(all.take(0) =~= Seq::<ScanEventView>::empty());
            assert(item_views(items@) =~= Seq::<ItemView>::empty());
        }
        for event in it: events
            invariant
                it.seq() == events@,
                all == event_views(events@),
                self@ == start.after(all.take(it.index())),
                item_views(items@) == start.run(all.take(it.index())),
        {
            proof {
                let i = it.index();
                assert(all.take(i + 1).drop_last() =~= all.take(i));
                assert(all.take(i + 1).last() == event@);
            }
            let ghost before = items@;
            match self.supply(event) {
                Some(item) => {
                    items.push(item);
                    proof {
                        assert(item_views(before.push(item)) =~= item_views(before).push(
                            item_view(item),
                        ));
                    }
                },
                None => {},
            }
        }
        proof {
            assert(all.take(all.len() as int) =~= all);
        }
        items
    }
}

} // verus!
