use vstd::prelude::*;
use crate::domain::action::{ActionState, Progress, ProgressView};
use crate::domain::finder::{
    emitted_view, names, topic_set, Demand, Phase, Query, QueryView, RecordFinder, RecordScan,
    ScanEvent, ScanEventView, ScanItem, ScanView,
};
use crate::domain::model::criteria::Criteria;
use crate::domain::model::topic_name::TopicName;
use crate::domain::session::{settings_of, SessionFactory, SessionSettings, SessionSettingsView};
use crate::properties::configuration_error::{ConfigurationError, ConfigurationErrorView};
use crate::properties::configuration_loader::ApplicationConfig;

verus! {

/// Makes query actions: pure construction, wired once with the record
/// finder and the bound that its actions work with.
#[derive(Debug)]
pub struct QueryActionFactory {
    record_finder: RecordFinder,
    bound: Option<u64>,
}

/// A query that has not been executed yet.
#[derive(Debug)]
pub struct QueryAction {
    record_finder: RecordFinder,
    query: Query,
}

impl View for QueryAction {
    type V = QueryView;

    closed spec fn view(&self) -> QueryView {
        self.query@
    }
}

impl QueryActionFactory {
    /// The most matches that an action of this factory returns; `None` where there is no bound.
    pub closed spec fn limit(&self) -> Option<u64> {
        self.bound
    }

    pub fn new(record_finder: RecordFinder, bound: Option<u64>) -> (factory: QueryActionFactory)
        ensures
            factory.limit() == bound,
    {
        QueryActionFactory { record_finder, bound }
    }

    /// The action that searches `topics` by `criteria`.
    pub fn create(&self, criteria: Criteria, topics: Vec<TopicName>) -> (action: QueryAction)
        requires
            topic_set(names(topics@)),
        ensures
            action@ == (QueryView { topics: names(topics@), criteria, bound: self.limit() }),
    {
        match Query::new(topics, criteria, self.bound) {
            Some(query) => QueryAction { record_finder: self.record_finder, query },
            None => vstd::pervasive::unreached(),
        }
    }
}

/// A query in execution: the result stream, pulled item by item, with the
/// progress made.
#[derive(Debug)]
pub struct QueryExecution {
    scan: RecordScan,
    progress: Progress,
}

/// An execution as mathematical values.
pub struct ExecutionView {
    pub scan: ScanView,
    pub progress: ProgressView,
}

impl View for QueryExecution {
    type V = ExecutionView;

    closed spec fn view(&self) -> ExecutionView {
        ExecutionView { scan: self.scan@, progress: self.progress@ }
    }
}

/// A query that has been started: the settings that its session is opened
/// with, and its execution.
#[derive(Debug)]
pub struct Started {
    pub settings: SessionSettings,
    pub execution: QueryExecution,
}

/// What one supplied event led to.
#[derive(Debug)]
pub struct Step {
    /// The item that the stream yields, if any.
    pub item: Option<ScanItem>,
    /// The progress to report, if any.
    pub progress: Option<Progress>,
}

/// The state of an action whose scan is in `phase`.
pub open spec fn state_of(phase: Phase) -> ActionState {
    match phase {
        Phase::Running => ActionState::Running,
        Phase::Completed => ActionState::Completed,
        Phase::Failed => ActionState::Failed,
    }
}

impl ExecutionView {
    /// Whether an event is a record pulled while the action runs: these are
    /// the events that count as progress.
    pub open spec fn pulls_record(self, event: ScanEventView) -> bool {
        self.scan.phase == Phase::Running && event is Fetched
    }

    /// The progress after an event.
    pub open spec fn progress_after(self, event: ScanEventView) -> ProgressView {
        if self.pulls_record(event) {
            self.progress.counted(self.scan.yielded(event) is Some)
        } else {
            self.progress
        }
    }

    /// The execution after an event.
    pub open spec fn advanced(self, event: ScanEventView) -> ExecutionView {
        ExecutionView { scan: self.scan.advanced(event), progress: self.progress_after(event) }
    }

    /// The progress reported for an event: one report for each record
    /// pulled, none for anything else.
    pub open spec fn reported(self, event: ScanEventView) -> Option<ProgressView> {
        if self.pulls_record(event) {
            Some(self.progress_after(event))
        } else {
            None
        }
    }

    /// Progress never goes back.
    pub proof fn lemma_progress_never_decreases(self, event: ScanEventView)
        ensures
            self.progress.not_after(self.advanced(event).progress),
    {
    }

    /// An action fails by a failure of the session and by nothing else: a
    /// record that cannot be decoded and a topic that cannot be opened leave
    /// a running action running or completed.
    pub proof fn lemma_fails_by_session_alone(self, event: ScanEventView)
        requires
            self.scan.phase == Phase::Running,
        ensures
            state_of(self.advanced(event).scan.phase) == ActionState::Failed <==> event
                is SessionLost,
            event is Undecodable ==> self.advanced(event).scan == self.scan,
    {
    }

    /// An action that has completed or failed stays so.
    pub proof fn lemma_end_states_are_final(self, event: ScanEventView)
        requires
            self.scan.phase != Phase::Running,
        ensures
            self.advanced(event) == self,
            self.scan.yielded(event) is None,
            self.reported(event) is None,
    {
    }
}

/// The progress that a report holds, where there is one.
pub open spec fn report_view(report: Option<Progress>) -> Option<ProgressView> {
    match report {
        Some(p) => Some(p@),
        None => None,
    }
}

impl QueryAction {
    /// An action that has not been executed is idle.
    pub fn state(&self) -> (state: ActionState)
        ensures
            state == ActionState::Idle,
    {
        ActionState::Idle
    }

    /// Starts the query: hands it to the record finder and gives the
    /// execution, with no record pulled yet. Nothing is opened or read
    /// before the first pull.
    pub fn execute(self) -> (execution: QueryExecution)
        ensures
            execution@.scan == ScanView::started(self@.topics, self@.criteria, self@.bound),
            execution@.scan.well_formed(),
            execution@.progress == (ProgressView { items_scanned: 0, items_matched: 0 }),
    {
        let scan = self.record_finder.find(self.query);
        QueryExecution { scan, progress: Progress::new() }
    }
}

impl QueryAction {
    /// Reads the settings of the session from `properties`, and only then
    /// starts the query. Where the settings cannot be read the query is not
    /// started: the configuration error is all that is given, and there is
    /// no execution to pull on, so no scan is opened, no progress is
    /// reported and no item is yielded.
    pub fn execute_with(self, properties: &ApplicationConfig) -> (started: Result<
        Started,
        ConfigurationError,
    >)
        ensures
            match started {
                Ok(s) => {
                    &&& settings_of(properties@) == Ok::<
                        SessionSettingsView,
                        ConfigurationErrorView,
                    >(s.settings@)
                    &&& s.execution@.scan == ScanView::started(
                        self@.topics,
                        self@.criteria,
                        self@.bound,
                    )
                    &&& s.execution@.scan.well_formed()
                    &&& s.execution@.progress == (ProgressView {
                        items_scanned: 0,
                        items_matched: 0,
                    })
                },
                Err(e) => settings_of(properties@) == Err::<
                    SessionSettingsView,
                    ConfigurationErrorView,
                >(e@),
            },
    {
        match SessionFactory::settings(properties) {
            Err(e) => Err(e),
            Ok(settings) => Ok(Started { settings, execution: self.execute() }),
        }
    }
}

impl QueryExecution {
    /// Where the action stands.
    pub fn state(&self) -> (state: ActionState)
        ensures
            state == state_of(self@.scan.phase),
    {
        match self.scan.phase() {
            Phase::Running => ActionState::Running,
            Phase::Completed => ActionState::Completed,
            Phase::Failed => ActionState::Failed,
        }
    }

    /// What the execution asks for next.
    pub fn demand(&self) -> (demand: Demand)
        ensures
            demand == self@.scan.demand(),
    {
        self.scan.demand()
    }

    /// The topic that is being scanned, while the action runs.
    pub fn current_topic(&self) -> (topic: Option<&TopicName>)
        ensures
            match topic {
                Some(t) => self@.scan.phase == Phase::Running && t@ == self@.scan.topics[self@.scan.current as int],
                None => self@.scan.phase != Phase::Running,
            },
    {
        self.scan.current_topic()
    }

    /// The progress made so far.
    pub fn progress(&self) -> (progress: Progress)
        ensures
            progress@ == self@.progress,
    {
        self.progress
    }

    /// Takes what came of the pull that the execution asked for. The item is
    /// the one that the record finder yields, unchanged; the progress is
    /// reported beside it, once for each record pulled.
    pub fn supply(&mut self, event: ScanEvent) -> (step: Step)
        ensures
            final(self)@ == old(self)@.advanced(event@),
            emitted_view(step.item) == old(self)@.scan.yielded(event@),
            report_view(step.progress) == old(self)@.reported(event@),
    {
        let running = match self.scan.phase() {
            Phase::Running => true,
            _ => false,
        };
        let fetched = match &event {
            ScanEvent::Fetched(_) => true,
            _ => false,
        };
        let item = self.scan.supply(event);
        if running && fetched {
            let progress = self.progress.counted(item.is_some());
            self.progress = progress;
            Step { item, progress: Some(progress) }
        } else {
            Step { item, progress: None }
        }
    }
}

} // verus!
