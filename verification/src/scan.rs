//! The scan as a state machine.
//!
//! The machine decides; its caller acts. Each step takes what the last action
//! brought back (a block number, the logs of a query, or just that the action
//! was carried out) and answers with the next action: wait, query, report.
//! A window's sums enter the running totals when its last query has returned,
//! never before, so a scan that is aborted holds only whole windows.

use crate::aggregate::{Aggregator, RunningTotal, Totals};
use crate::amount::Amount;
use crate::config::{EventFilter, ScanConfig, ScanTarget};
use crate::decode::{decode_with_topic, decoded, RawLogEntry};
use crate::partition::{lemma_window_count_bound, window_count, window_range, Partitioner};
use crate::range::{BlockRange, RangeBoundaryError};
use crate::schema::{EventSchema, Metric};
use vstd::prelude::*;

verus! {

/// The sums after the entries that decode as `schema` were counted, in
/// order, towards the metric that the schema feeds. Entries that do not
/// decode add nothing.
pub open spec fn fed(
    totals: Totals,
    schema: EventSchema,
    topic: Seq<u8>,
    entries: Seq<RawLogEntry>,
) -> Totals
    decreases entries.len(),
{
    if entries.len() == 0 {
        totals
    } else {
        let before = fed(totals, schema, topic, entries.drop_last());
        match decoded(schema, topic, entries.last().topics@, entries.last().data@) {
            Ok(event) => before.after(schema.feeds(), event),
            Err(_) => before,
        }
    }
}

/// How many of the entries do not decode as `schema`.
pub open spec fn skipped_in(schema: EventSchema, topic: Seq<u8>, entries: Seq<RawLogEntry>) -> nat
    decreases entries.len(),
{
    if entries.len() == 0 {
        0
    } else {
        let before = skipped_in(schema, topic, entries.drop_last());
        match decoded(schema, topic, entries.last().topics@, entries.last().data@) {
            Ok(_) => before,
            Err(_) => before + 1,
        }
    }
}

/// Decodes each entry against `schema`, given the topic that stands for the
/// schema's signature, and counts every event that decodes, once, towards
/// the schema's metric. An entry that does not decode is passed over and
/// counted in the result.
pub fn feed_with_topic(
    aggregator: &mut Aggregator,
    schema: EventSchema,
    topic: &[u8; 32],
    entries: &Vec<RawLogEntry>,
) -> (skipped: Amount)
    ensures
        final(aggregator)@ == fed(old(aggregator)@, schema, topic@, entries@),
        skipped@ == skipped_in(schema, topic@, entries@),
{
    let one = Amount::from_u128(1);
    let mut skipped = Amount::zero();
    let mut i: usize = 0;
    while i < entries.len()
        invariant
            i <= entries@.len(),
            one@ == 1,
            aggregator@ == fed(old(aggregator)@, schema, topic@, entries@.take(i as int)),
            skipped@ == skipped_in(schema, topic@, entries@.take(i as int)),
        decreases entries@.len() - i,
    {
        proof {
            assert(entries@.take(i + 1).drop_last() =~= entries@.take(i as int));
        }
        match decode_with_topic(&entries[i], schema, topic) {
            Ok(event) => {
                aggregator.accumulate(schema.metric(), &event);
            },
            Err(_) => {
                skipped = skipped.add(&one);
            },
        }
        i = i + 1;
    }
    proof {
        assert(entries@.take(i as int) =~= entries@);
    }
    skipped
}

/// Decodes each entry against `schema` and counts every event that decodes,
/// once, towards the schema's metric; the result is the number of entries
/// passed over because they do not decode.
pub fn feed(aggregator: &mut Aggregator, schema: EventSchema, entries: &Vec<RawLogEntry>) -> (skipped:
    Amount)
    ensures
        final(aggregator)@ == fed(old(aggregator)@, schema, schema.topic(), entries@),
        skipped@ == skipped_in(schema, schema.topic(), entries@),
{
    let topic = schema.event_topic();
    feed_with_topic(aggregator, schema, &topic, entries)
}

/// A query that the node did not answer: which window and which event it was
/// for, or neither when it asked for the latest block.
#[derive(Clone, Copy, Debug, PartialEq, Eq)]
pub struct NodeQueryError {
    pub window: Option<BlockRange>,
    pub schema: Option<EventSchema>,
}

/// Why a scan ended without a final report.
#[derive(Clone, Copy, Debug, PartialEq, Eq)]
pub enum ScanFailure {
    /// A query failed; the rest of the scan is given up.
    NodeQuery(NodeQueryError),
    /// The bounds or settings were refused before any query was made.
    RangeBoundary(RangeBoundaryError),
    /// The caller called the scan off between two windows.
    Cancelled,
}

/// Where the scan stands inside a window.
#[derive(Clone, Copy, Debug, PartialEq, Eq)]
pub enum Stage {
    /// Pausing before the window's queries.
    Pacing,
    /// Waiting for the answer to query number `query` of the window.
    Fetching { query: usize },
    /// Waiting for the window's report to be delivered.
    Closing,
}

/// Where the scan stands.
#[derive(Clone, Copy, Debug, PartialEq, Eq)]
pub enum Phase {
    /// Not started.
    Idle,
    /// At window `index` of `count`.
    Scanning { index: u64, count: u128, stage: Stage },
    /// Every window is done; the final report is being delivered.
    Reporting,
    /// Finished.
    Done,
    /// Given up; see the failure.
    Aborted,
}

/// What the caller hands to the machine.
#[derive(Clone, Debug, PartialEq, Eq)]
pub enum ScanEvent {
    /// Start the scan.
    Begin,
    /// The node's latest block number.
    LatestBlock(u64),
    /// The last action, a pause or a report, was carried out.
    Completed,
    /// The entries that the last query returned, in the node's order.
    Logs(Vec<RawLogEntry>),
    /// The last query failed.
    QueryFailed,
    /// Call the scan off.
    Cancel,
}

/// What a finished window added.
#[derive(Clone, Debug, PartialEq, Eq)]
pub struct WindowReport {
    pub window: BlockRange,
    pub index: u64,
    pub count: u128,
    /// The sums over this window alone.
    pub subtotal: RunningTotal,
    /// How many entries of this window did not decode and were passed over.
    pub skipped: Amount,
}

/// What the machine asks of its caller.
#[derive(Clone, Debug, PartialEq, Eq)]
pub enum ScanAction {
    /// Ask the node for its latest block number.
    QueryLatestBlock,
    /// Pause.
    Wait { millis: u64 },
    /// Run this query.
    Fetch(EventFilter),
    /// Deliver a window's report.
    ReportWindow(WindowReport),
    /// Deliver the final totals.
    ReportFinal(RunningTotal),
    /// Deliver the reason for which the scan was given up.
    ReportFailure(ScanFailure),
    /// Nothing is left to do.
    Halt,
    /// The event does not fit the state; nothing has changed.
    Rejected,
}

/// An action with its amounts as numbers.
pub enum ActionValue {
    QueryLatestBlock,
    Wait { millis: u64 },
    Fetch { contract: Seq<u8>, schema: EventSchema, topic: Seq<u8>, window: BlockRange },
    ReportWindow { window: BlockRange, index: u64, count: u128, subtotal: Totals, skipped: nat },
    ReportFinal { totals: Totals },
    ReportFailure { failure: ScanFailure },
    Halt,
    Rejected,
}

impl View for ScanAction {
    type V = ActionValue;

    open spec fn view(&self) -> ActionValue {
        match self {
            ScanAction::QueryLatestBlock => ActionValue::QueryLatestBlock,
            ScanAction::Wait { millis } => ActionValue::Wait { millis: *millis },
            ScanAction::Fetch(filter) => ActionValue::Fetch {
                contract: filter.contract@,
                schema: filter.schema,
                topic: filter.topic@,
                window: filter.window,
            },
            ScanAction::ReportWindow(report) => ActionValue::ReportWindow {
                window: report.window,
                index: report.index,
                count: report.count,
                subtotal: report.subtotal@,
                skipped: report.skipped@,
            },
            ScanAction::ReportFinal(totals) => ActionValue::ReportFinal { totals: totals@ },
            ScanAction::ReportFailure(failure) => ActionValue::ReportFailure { failure: *failure },
            ScanAction::Halt => ActionValue::Halt,
            ScanAction::Rejected => ActionValue::Rejected,
        }
    }
}

/// The state of a scan, with its amounts as numbers.
pub struct ScanState {
    pub config: ScanConfig,
    pub contract: Seq<u8>,
    pub schemas: Seq<EventSchema>,
    pub phase: Phase,
    /// The last block to scan, once the scan has started.
    pub ceiling: u64,
    /// The sums over the window that is being scanned.
    pub window_sums: Totals,
    /// The entries of that window that were passed over.
    pub window_skipped: nat,
    /// The sums over every finished window.
    pub totals: Totals,
    pub failure: Option<ScanFailure>,
}

impl ScanState {
    /// While scanning, the window at hand is one of the scan's windows and
    /// the query at hand one of the target's.
    pub open spec fn wf(self) -> bool {
        match self.phase {
            Phase::Scanning { index, count, stage } => {
                &&& self.config.max_window_width >= 1
                &&& self.config.genesis_block <= self.ceiling
                &&& count == window_count(
                    self.config.genesis_block as int,
                    self.ceiling as int,
                    self.config.max_window_width as int,
                )
                &&& index < count
                &&& (stage matches Stage::Fetching { query } ==> query < self.schemas.len())
            },
            _ => true,
        }
    }

    /// A scan that has not started.
    pub open spec fn idle(config: ScanConfig, contract: Seq<u8>, schemas: Seq<EventSchema>) -> ScanState {
        ScanState {
            config,
            contract,
            schemas,
            phase: Phase::Idle,
            ceiling: 0,
            window_sums: Totals::zero(),
            window_skipped: 0,
            totals: Totals::zero(),
            failure: None,
        }
    }

    /// Window `index` of the scan.
    pub open spec fn window(self, index: u64) -> BlockRange {
        window_range(
            self.config.genesis_block as int,
            self.ceiling as int,
            self.config.max_window_width as int,
            index as int,
        )
    }

    /// The scan is given up for `failure`; the totals stay as they are.
    pub open spec fn aborted(self, failure: ScanFailure) -> (ScanState, ActionValue) {
        (
            ScanState { phase: Phase::Aborted, failure: Some(failure), ..self },
            ActionValue::ReportFailure { failure },
        )
    }

    /// The scan up to `ceiling` starts with a pause before its first window,
    /// unless the settings are refused.
    pub open spec fn started(self, ceiling: u64) -> (ScanState, ActionValue) {
        match self.config.refusal(ceiling) {
            Some(e) => self.aborted(ScanFailure::RangeBoundary(e)),
            None => (
                ScanState {
                    phase: Phase::Scanning {
                        index: 0,
                        count: window_count(
                            self.config.genesis_block as int,
                            ceiling as int,
                            self.config.max_window_width as int,
                        ) as u128,
                        stage: Stage::Pacing,
                    },
                    ceiling,
                    window_sums: Totals::zero(),
                    window_skipped: 0,
                    ..self
                },
                ActionValue::Wait { millis: self.config.inter_query_delay_millis },
            ),
        }
    }

    /// Query number `query` of window `index` goes out.
    pub open spec fn querying(self, index: u64, count: u128, query: usize) -> (
        ScanState,
        ActionValue,
    ) {
        (
            ScanState {
                phase: Phase::Scanning { index, count, stage: Stage::Fetching { query } },
                ..self
            },
            ActionValue::Fetch {
                contract: self.contract,
                schema: self.schemas[query as int],
                topic: self.schemas[query as int].topic(),
                window: self.window(index),
            },
        )
    }

    /// Window `index` is finished: its sums enter the totals and are reported.
    pub open spec fn closed(self, index: u64, count: u128) -> (ScanState, ActionValue) {
        (
            ScanState {
                phase: Phase::Scanning { index, count, stage: Stage::Closing },
                totals: self.totals.merged(self.window_sums),
                ..self
            },
            ActionValue::ReportWindow {
                window: self.window(index),
                index,
                count,
                subtotal: self.window_sums,
                skipped: self.window_skipped,
            },
        )
    }

    /// The state after `event`, and the action that the machine asks for.
    ///
    /// - Idle: `Begin` starts the scan at the configured end block or, for
    ///   want of one, asks for the latest block, unless the window width is
    ///   zero; `LatestBlock` starts it at the resolved ceiling; a failed
    ///   query or `Cancel` gives it up. Settings that are refused give the
    ///   scan up before any log is queried.
    /// - Pacing: `Completed` sends the window's first query, or closes the
    ///   window when the target has no events; `Cancel` gives the scan up.
    /// - Fetching: `Logs` are decoded and counted, then the next query goes
    ///   out or the window closes; `QueryFailed` gives the scan up with the
    ///   totals of the finished windows.
    /// - Closing: `Completed` moves to the next window, or to the final report
    ///   after the last.
    /// - Reporting: `Completed` ends the scan.
    /// - Done and Aborted answer `Halt` to everything.
    ///
    /// Any other event is rejected and changes nothing.
    pub open spec fn step(self, event: ScanEvent) -> (ScanState, ActionValue) {
        match self.phase {
            Phase::Idle => match event {
                ScanEvent::Begin => match self.config.end_block {
                    Some(end) => self.started(end),
                    None => if self.config.max_window_width == 0 {
                        self.aborted(
                            ScanFailure::RangeBoundary(RangeBoundaryError::ZeroWindowWidth),
                        )
                    } else {
                        (self, ActionValue::QueryLatestBlock)
                    },
                },
                ScanEvent::LatestBlock(latest) => match self.config.ceiling_for(latest) {
                    Ok(ceiling) => self.started(ceiling),
                    Err(e) => self.aborted(ScanFailure::RangeBoundary(e)),
                },
                ScanEvent::QueryFailed => self.aborted(
                    ScanFailure::NodeQuery(NodeQueryError { window: None, schema: None }),
                ),
                ScanEvent::Cancel => self.aborted(ScanFailure::Cancelled),
                _ => (self, ActionValue::Rejected),
            },
            Phase::Scanning { index, count, stage } => match stage {
                Stage::Pacing => match event {
                    ScanEvent::Completed => if self.schemas.len() == 0 {
                        self.closed(index, count)
                    } else {
                        self.querying(index, count, 0)
                    },
                    ScanEvent::Cancel => self.aborted(ScanFailure::Cancelled),
                    _ => (self, ActionValue::Rejected),
                },
                Stage::Fetching { query } => match event {
                    ScanEvent::Logs(entries) => {
                        let schema = self.schemas[query as int];
                        let counted = ScanState {
                            window_sums: fed(self.window_sums, schema, schema.topic(), entries@),
                            window_skipped: self.window_skipped + skipped_in(
                                schema,
                                schema.topic(),
                                entries@,
                            ),
                            ..self
                        };
                        if query + 1 < self.schemas.len() {
                            counted.querying(index, count, (query + 1) as usize)
                        } else {
                            counted.closed(index, count)
                        }
                    },
                    ScanEvent::QueryFailed => self.aborted(
                        ScanFailure::NodeQuery(
                            NodeQueryError {
                                window: Some(self.window(index)),
                                schema: Some(self.schemas[query as int]),
                            },
                        ),
                    ),
                    _ => (self, ActionValue::Rejected),
                },
                Stage::Closing => match event {
                    ScanEvent::Completed => if index + 1 < count {
                        (
                            ScanState {
                                phase: Phase::Scanning {
                                    index: (index + 1) as u64,
                                    count,
                                    stage: Stage::Pacing,
                                },
                                window_sums: Totals::zero(),
                                window_skipped: 0,
                                ..self
                            },
                            ActionValue::Wait { millis: self.config.inter_query_delay_millis },
                        )
                    } else {
                        (
                            ScanState { phase: Phase::Reporting, ..self },
                            ActionValue::ReportFinal { totals: self.totals },
                        )
                    },
                    _ => (self, ActionValue::Rejected),
                },
            },
            Phase::Reporting => match event {
                ScanEvent::Completed => (
                    ScanState { phase: Phase::Done, ..self },
                    ActionValue::Halt,
                ),
                _ => (self, ActionValue::Rejected),
            },
            Phase::Done => (self, ActionValue::Halt),
            Phase::Aborted => (self, ActionValue::Halt),
        }
    }
}

/// The state stays well formed from step to step.
pub proof fn lemma_step_keeps_well_formed(state: ScanState, event: ScanEvent)
    requires
        state.wf(),
    ensures
        state.step(event).0.wf(),
{
    if state.phase is Idle {
        let ceiling = match event {
            ScanEvent::LatestBlock(latest) => match state.config.ceiling_for(latest) {
                Ok(ceiling) => ceiling,
                Err(_) => 0,
            },
            _ => match state.config.end_block {
                Some(end) => end,
                None => 0,
            },
        };
        if state.config.refusal(ceiling) is None {
            lemma_window_count_bound(
                state.config.genesis_block as int,
                ceiling as int,
                state.config.max_window_width as int,
            );
        }
    }
}

/// The totals move only when a window closes, and then by what the window's
/// report shows: no step lowers a total, and a scan that is given up keeps
/// the totals of its finished windows.
pub proof fn lemma_totals_grow_by_reported_windows(state: ScanState, event: ScanEvent)
    ensures
        match state.step(event).1 {
            ActionValue::ReportWindow { subtotal, .. } => state.step(event).0.totals
                == state.totals.merged(subtotal),
            _ => state.step(event).0.totals == state.totals,
        },
        state.totals.le(state.step(event).0.totals),
{
}

/// The state after the events of `events`, first to last.
pub open spec fn run(state: ScanState, events: Seq<ScanEvent>) -> ScanState
    decreases events.len(),
{
    if events.len() == 0 {
        state
    } else {
        run(state, events.drop_last()).step(events.last()).0
    }
}

/// Whatever the caller hands in, and in whatever order, a scan stays well
/// formed and its totals never go down.
pub proof fn lemma_run_is_sound(state: ScanState, events: Seq<ScanEvent>)
    requires
        state.wf(),
    ensures
        run(state, events).wf(),
        state.totals.le(run(state, events).totals),
    decreases events.len(),
{
    if events.len() > 0 {
        let before = run(state, events.drop_last());
        lemma_run_is_sound(state, events.drop_last());
        lemma_step_keeps_well_formed(before, events.last());
        lemma_totals_grow_by_reported_windows(before, events.last());
        assert forall|metric: Metric|
            state.totals.of(metric) <= #[trigger] run(state, events).totals.of(metric) by {
            assert(state.totals.of(metric) <= before.totals.of(metric));
            assert(before.totals.of(metric) <= before.step(events.last()).0.totals.of(metric));
        }
    }
}

/// Drives one scan of one target over its block range.
#[derive(Debug)]
pub struct Orchestrator {
    config: ScanConfig,
    target: ScanTarget,
    phase: Phase,
    ceiling: u64,
    window: RunningTotal,
    window_skipped: Amount,
    totals: RunningTotal,
    failure: Option<ScanFailure>,
}

impl View for Orchestrator {
    type V = ScanState;

    closed spec fn view(&self) -> ScanState {
        ScanState {
            config: self.config,
            contract: self.target.contract@,
            schemas: self.target.schemas@,
            phase: self.phase,
            ceiling: self.ceiling,
            window_sums: self.window@,
            window_skipped: self.window_skipped@,
            totals: self.totals@,
            failure: self.failure,
        }
    }
}

impl Orchestrator {
    #[verifier::type_invariant]
    spec fn well_formed(&self) -> bool {
        self@.wf()
    }

    /// A scan of `target` under `config`, not started.
    pub fn new(config: ScanConfig, target: ScanTarget) -> (machine: Orchestrator)
        ensures
            machine@ == ScanState::idle(config, target.contract@, target.schemas@),
    {
        Orchestrator {
            config,
            target,
            phase: Phase::Idle,
            ceiling: 0,
            window: RunningTotal::new(),
            window_skipped: Amount::zero(),
            totals: RunningTotal::new(),
            failure: None,
        }
    }

    /// Where the scan stands.
    pub fn phase(&self) -> (phase: Phase)
        ensures
            phase == self@.phase,
    {
        self.phase
    }

    /// The sums over every finished window.
    pub fn totals(&self) -> (totals: &RunningTotal)
        ensures
            totals@ == self@.totals,
    {
        &self.totals
    }

    /// Why the scan was given up, if it was.
    pub fn failure(&self) -> (failure: Option<ScanFailure>)
        ensures
            failure == self@.failure,
    {
        self.failure
    }

    fn window_of(&self, index: u64) -> (window: BlockRange)
        requires
            self.config.max_window_width >= 1,
            index < window_count(
                self.config.genesis_block as int,
                self.ceiling as int,
                self.config.max_window_width as int,
            ),
        ensures
            window == self@.window(index),
    {
        let whole = BlockRange { start: self.config.genesis_block, end: self.ceiling };
        match Partitioner::new(
            self.config.genesis_block,
            self.ceiling,
            self.config.max_window_width,
        ) {
            Ok(walk) => match walk.window_at(index) {
                Some(window) => window,
                None => whole,
            },
            Err(_) => whole,
        }
    }

    fn abort(&mut self, failure: ScanFailure) -> (action: ScanAction)
        ensures
            final(self)@ == old(self)@.aborted(failure).0,
            action@ == old(self)@.aborted(failure).1,
            final(self)@.wf(),
    {
        self.phase = Phase::Aborted;
        self.failure = Some(failure);
        ScanAction::ReportFailure(failure)
    }

    fn start(&mut self, ceiling: u64) -> (action: ScanAction)
        requires
            old(self)@.phase is Idle,
        ensures
            final(self)@ == old(self)@.started(ceiling).0,
            action@ == old(self)@.started(ceiling).1,
            final(self)@.wf(),
    {
        match self.config.validate(ceiling) {
            Err(e) => self.abort(ScanFailure::RangeBoundary(e)),
            Ok(_) => {
                let count: u128 = match Partitioner::new(
                    self.config.genesis_block,
                    ceiling,
                    self.config.max_window_width,
                ) {
                    Ok(walk) => walk.window_count(),
                    Err(_) => 0,
                };
                proof {
                    lemma_window_count_bound(
                        self.config.genesis_block as int,
                        ceiling as int,
                        self.config.max_window_width as int,
                    );
                }
                self.ceiling = ceiling;
                self.phase = Phase::Scanning { index: 0, count, stage: Stage::Pacing };
                self.window = RunningTotal::new();
                self.window_skipped = Amount::zero();
                ScanAction::Wait { millis: self.config.inter_query_delay_millis }
            },
        }
    }

    fn query(&mut self, index: u64, count: u128, query: usize) -> (action: ScanAction)
        requires
            old(self)@.config.max_window_width >= 1,
            old(self)@.config.genesis_block <= old(self)@.ceiling,
            count == window_count(
                old(self)@.config.genesis_block as int,
                old(self)@.ceiling as int,
                old(self)@.config.max_window_width as int,
            ),
            index < count,
            query < old(self)@.schemas.len(),
        ensures
            final(self)@ == old(self)@.querying(index, count, query).0,
            action@ == old(self)@.querying(index, count, query).1,
            final(self)@.wf(),
    {
        self.phase = Phase::Scanning { index, count, stage: Stage::Fetching { query } };
        ScanAction::Fetch(
            EventFilter::new(
                self.target.contract,
                self.target.schemas[query],
                self.window_of(index),
            ),
        )
    }

    fn close(&mut self, index: u64, count: u128) -> (action: ScanAction)
        requires
            old(self)@.config.max_window_width >= 1,
            old(self)@.config.genesis_block <= old(self)@.ceiling,
            count == window_count(
                old(self)@.config.genesis_block as int,
                old(self)@.ceiling as int,
                old(self)@.config.max_window_width as int,
            ),
            index < count,
        ensures
            final(self)@ == old(self)@.closed(index, count).0,
            action@ == old(self)@.closed(index, count).1,
            final(self)@.wf(),
    {
        proof {
            use_type_invariant(&*self);
        }
        let subtotal = self.window.clone();
        let mut totals = self.totals.clone();
        totals.merge(&subtotal);
        self.totals = totals;
        self.phase = Phase::Scanning { index, count, stage: Stage::Closing };
        ScanAction::ReportWindow(
            WindowReport {
                window: self.window_of(index),
                index,
                count,
                subtotal,
                skipped: self.window_skipped.clone(),
            },
        )
    }

    /// Takes `event` and answers with the next action; see `ScanState::step`
    /// for the transitions.
    pub fn step(&mut self, event: ScanEvent) -> (action: ScanAction)
        ensures
            final(self)@ == old(self)@.step(event).0,
            action@ == old(self)@.step(event).1,
            old(self)@.wf(),
            final(self)@.wf(),
    {
        proof {
            use_type_invariant(&*self);
        }
        match self.phase {
            Phase::Idle => match event {
                ScanEvent::Begin => match self.config.end_block {
                    Some(end) => self.start(end),
                    None => if self.config.max_window_width == 0 {
                        self.abort(ScanFailure::RangeBoundary(RangeBoundaryError::ZeroWindowWidth))
                    } else {
                        ScanAction::QueryLatestBlock
                    },
                },
                ScanEvent::LatestBlock(latest) => match self.config.resolve_ceiling(latest) {
                    Ok(ceiling) => self.start(ceiling),
                    Err(e) => self.abort(ScanFailure::RangeBoundary(e)),
                },
                ScanEvent::QueryFailed => self.abort(
                    ScanFailure::NodeQuery(NodeQueryError { window: None, schema: None }),
                ),
                ScanEvent::Cancel => self.abort(ScanFailure::Cancelled),
                _ => ScanAction::Rejected,
            },
            Phase::Scanning { index, count, stage } => match stage {
                Stage::Pacing => match event {
                    ScanEvent::Completed => if self.target.schemas.len() == 0 {
                        self.close(index, count)
                    } else {
                        self.query(index, count, 0)
                    },
                    ScanEvent::Cancel => self.abort(ScanFailure::Cancelled),
                    _ => ScanAction::Rejected,
                },
                Stage::Fetching { query } => match event {
                    ScanEvent::Logs(entries) => {
                        let queries: usize = self.target.schemas.len();
                        let schema = self.target.schemas[query];
                        let mut aggregator = Aggregator::resume(self.window.clone());
                        let skipped = feed(&mut aggregator, schema, &entries);
                        self.window = aggregator.into_totals();
                        self.window_skipped = self.window_skipped.add(&skipped);
                        if query + 1 < queries {
                            self.query(index, count, query + 1)
                        } else {
                            self.close(index, count)
                        }
                    },
                    ScanEvent::QueryFailed => {
                        let failure = ScanFailure::NodeQuery(
                            NodeQueryError {
                                window: Some(self.window_of(index)),
                                schema: Some(self.target.schemas[query]),
                            },
                        );
                        self.abort(failure)
                    },
                    _ => ScanAction::Rejected,
                },
                Stage::Closing => match event {
                    ScanEvent::Completed => if (index as u128) + 1 < count {
                        proof {
                            lemma_window_count_bound(
                                self.config.genesis_block as int,
                                self.ceiling as int,
                                self.config.max_window_width as int,
                            );
                        }
                        self.phase = Phase::Scanning {
                            index: index + 1,
                            count,
                            stage: Stage::Pacing,
                        };
                        self.window = RunningTotal::new();
                        self.window_skipped = Amount::zero();
                        ScanAction::Wait { millis: self.config.inter_query_delay_millis }
                    } else {
                        self.phase = Phase::Reporting;
                        ScanAction::ReportFinal(self.totals.clone())
                    },
                    _ => ScanAction::Rejected,
                },
            },
            Phase::Reporting => match event {
                ScanEvent::Completed => {
                    self.phase = Phase::Done;
                    ScanAction::Halt
                },
                _ => ScanAction::Rejected,
            },
            Phase::Done => ScanAction::Halt,
            Phase::Aborted => ScanAction::Halt,
        }
    }
}

} // verus!
