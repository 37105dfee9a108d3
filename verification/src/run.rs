//! One run of the backup: choose the collections, take them one after the
//! other, report.
//!
//! The run does no work on the source or the store. It says what is to be
//! done next, is told how that went, and keeps the record.

use vstd::prelude::*;
use crate::key::DateView;
use crate::key::RunDate;
use crate::pipeline::BackupOutcome;
use crate::pipeline::Pipeline;
use crate::pipeline::PipelineView;
use crate::select::any_usable;
use crate::select::is_selection;
use crate::select::selected;
use crate::select::SelectionMatcher;
use crate::settings::Mode;
use crate::settings::Settings;
use crate::text::texts;

verus! {

/// Why a run could not do its work at all.
#[derive(Clone, Debug, PartialEq, Eq)]
pub enum RunError {
    /// None of the patterns of the mode compiled.
    NoUsablePatterns,
    /// The source could not be reached or did not list its collections.
    SourceUnavailable(String),
    /// The client of the store could not be set up.
    StoreUnavailable(String),
}

/// What became of one collection of the run.
#[derive(Clone, Debug, PartialEq, Eq)]
pub struct CollectionReport {
    pub name: String,
    pub outcome: BackupOutcome,
    /// Objects stored.
    pub chunks_uploaded: u64,
    /// Pages lost.
    pub chunks_dropped: u64,
}

/// How far a run has come.
#[derive(Clone, Copy, Debug, PartialEq, Eq, Structural)]
pub enum Phase {
    /// The collections of the source are being listed.
    Listing,
    /// The chosen collections are taken one after the other.
    Working,
    /// Every chosen collection has been taken.
    Finished,
    /// The run was given up before any collection was taken.
    Aborted,
}

/// What the run is told.
#[derive(Debug)]
pub enum RunEvent {
    /// The source lists these collections.
    Collections(Vec<String>),
    /// The source could not be reached or did not list its collections.
    SourceFailed(String),
    /// The client of the store could not be set up.
    StoreFailed(String),
    /// The pipeline of the collection in hand has ended.
    CollectionDone { outcome: BackupOutcome, chunks_uploaded: u64, chunks_dropped: u64 },
}

/// What the run asks for next.
#[derive(Debug, PartialEq, Eq)]
pub enum RunAction {
    /// Run the pipeline of this collection, fetching pages of this size;
    /// size zero leaves the choice to the source.
    Backup { collection: String, page_size: u64 },
    /// Every chosen collection has been taken: report.
    Report,
    /// Give the run up with this error.
    Abort(RunError),
    /// The event has no place where the run stands; nothing changes.
    Ignore,
}

/// The numbers at the end of a run.
#[derive(Clone, Debug, PartialEq, Eq)]
pub struct RunSummary {
    pub mode: Mode,
    /// The chosen collections, in the order they were taken.
    pub selected: Vec<String>,
    /// What became of each, in the same order.
    pub reports: Vec<CollectionReport>,
    /// How many collections the source delivered.
    pub processed: usize,
    /// How many it could not open or deliver.
    pub failed: usize,
    /// How many pages were lost over all collections; at most `u64::MAX`.
    pub chunks_dropped: u64,
    /// The time the run took, in milliseconds.
    pub elapsed_millis: u64,
}

/// How many of `reports` tell of a delivered collection.
pub open spec fn count_processed(reports: Seq<CollectionReport>) -> nat
    decreases reports.len(),
{
    if reports.len() == 0 {
        0
    } else {
        count_processed(reports.drop_last()) + if reports.last().outcome is Processed {
            1nat
        } else {
            0nat
        }
    }
}

/// How many pages `reports` tell of as lost.
pub open spec fn count_dropped(reports: Seq<CollectionReport>) -> nat
    decreases reports.len(),
{
    if reports.len() == 0 {
        0
    } else {
        count_dropped(reports.drop_last()) + reports.last().chunks_dropped as nat
    }
}

/// `n`, or the largest `u64` where `n` is larger.
pub open spec fn capped(n: nat) -> u64 {
    if n <= u64::MAX {
        n as u64
    } else {
        u64::MAX
    }
}

/// A run, between the things it asks for.
pub struct BackupRun {
    mode: Mode,
    matcher: SelectionMatcher,
    page_size: u64,
    prefix: String,
    suffix: String,
    date: RunDate,
    stage: Stage,
    selected: Vec<String>,
    reports: Vec<CollectionReport>,
}

/// Whether the collections have been chosen.
#[derive(Clone, Copy, Debug, PartialEq, Eq, Structural)]
enum Stage {
    Listing,
    Aborted,
    Chosen,
}

/// A run as plain values.
pub struct RunView {
    pub mode: Mode,
    /// The usable patterns.
    pub sources: Seq<Seq<char>>,
    pub page_size: u64,
    pub prefix: Seq<char>,
    pub suffix: Seq<char>,
    pub date: DateView,
    pub phase: Phase,
    /// The chosen collections.
    pub selected: Seq<Seq<char>>,
    /// What became of those taken so far.
    pub reports: Seq<CollectionReport>,
}

impl RunView {
    /// The records follow the choice: one report for each collection taken,
    /// under its name, and a collection in hand exactly while working.
    pub open spec fn consistent(self) -> bool {
        &&& self.reports.len() <= self.selected.len()
        &&& forall|i: int|
            0 <= i < self.reports.len() ==> (#[trigger] self.reports[i]).name@ == self.selected[i]
        &&& self.phase is Working ==> self.reports.len() < self.selected.len()
        &&& self.phase is Finished ==> self.reports.len() == self.selected.len()
        &&& (self.phase is Listing || self.phase is Aborted) ==> self.selected.len() == 0
    }

    /// The collection in hand, while working.
    pub open spec fn current(self) -> Seq<char> {
        self.selected[self.reports.len() as int]
    }

    /// What the run asks for where it stands, once it has the collections.
    pub open spec fn asks(self, action: RunAction) -> bool {
        if self.phase is Working {
            &&& action matches RunAction::Backup { collection, page_size }
            &&& collection@ == self.current()
            &&& page_size == self.page_size
        } else {
            action is Report
        }
    }

    /// Whether to tell the run `event` can lead from `self` to `after` with
    /// `action` asked for.
    pub open spec fn steps_to(self, event: RunEvent, after: RunView, action: RunAction) -> bool {
        match (self.phase, event) {
            (Phase::Listing, RunEvent::Collections(names)) => {
                &&& after == RunView { phase: after.phase, selected: after.selected, ..self }
                &&& is_selection(texts(names@), self.sources, after.selected)
                &&& after.phase == if after.selected.len() == 0 {
                    Phase::Finished
                } else {
                    Phase::Working
                }
                &&& after.asks(action)
            },
            (Phase::Listing, RunEvent::SourceFailed(reason)) => {
                &&& after == RunView { phase: Phase::Aborted, ..self }
                &&& action matches RunAction::Abort(RunError::SourceUnavailable(r))
                &&& r == reason
            },
            (Phase::Listing, RunEvent::StoreFailed(reason)) => {
                &&& after == RunView { phase: Phase::Aborted, ..self }
                &&& action matches RunAction::Abort(RunError::StoreUnavailable(r))
                &&& r == reason
            },
            (Phase::Working, RunEvent::CollectionDone { outcome, chunks_uploaded, chunks_dropped }) => {
                &&& after == RunView { phase: after.phase, reports: after.reports, ..self }
                &&& after.reports.len() == self.reports.len() + 1
                &&& after.reports.drop_last() == self.reports
                &&& after.reports.last().name@ == self.current()
                &&& after.reports.last().outcome == outcome
                &&& after.reports.last().chunks_uploaded == chunks_uploaded
                &&& after.reports.last().chunks_dropped == chunks_dropped
                &&& after.phase == if after.reports.len() == self.selected.len() {
                    Phase::Finished
                } else {
                    Phase::Working
                }
                &&& after.asks(action)
            },
            _ => after == self && action is Ignore,
        }
    }
}

impl View for BackupRun {
    type V = RunView;

    closed spec fn view(&self) -> RunView {
        RunView {
            mode: self.mode,
            sources: self.matcher.sources(),
            page_size: self.page_size,
            prefix: self.prefix@,
            suffix: self.suffix@,
            date: self.date@,
            phase: match self.stage {
                Stage::Listing => Phase::Listing,
                Stage::Aborted => Phase::Aborted,
                Stage::Chosen => if self.reports.len() < self.selected.len() {
                    Phase::Working
                } else {
                    Phase::Finished
                },
            },
            selected: texts(self.selected@),
            reports: self.reports@,
        }
    }
}

impl BackupRun {
    #[verifier::type_invariant]
    spec fn in_step(self) -> bool {
        &&& self.reports.len() <= self.selected.len()
        &&& forall|i: int|
            0 <= i < self.reports.len() ==> (#[trigger] self.reports@[i]).name@
                == self.selected@[i]@
        &&& !(self.stage is Chosen) ==> self.selected.len() == 0
    }

    /// Starts a run in `mode` on `date`: compiles the patterns of the mode
    /// and stands ready for the list of collections. Fails exactly when no
    /// pattern compiles.
    pub fn begin(settings: &Settings, mode: Mode, date: RunDate) -> (r: Result<BackupRun, RunError>)
        ensures
            r is Ok <==> any_usable(texts(settings.spec_patterns(mode)@)),
            r matches Err(e) ==> e is NoUsablePatterns,
            r matches Ok(run) ==> {
                &&& run@.consistent()
                &&& run@.mode == mode
                &&& run@.phase is Listing
                &&& run@.page_size == settings.spec_page_size(mode)
                &&& run@.prefix == settings.prefix@
                &&& run@.suffix == settings.suffix@
                &&& run@.date == date@
                &&& run@.selected.len() == 0
                &&& run@.reports.len() == 0
                &&& forall|name: Seq<char>| #[trigger]
                    selected(run@.sources, name) <==> selected(
                        texts(settings.spec_patterns(mode)@),
                        name,
                    )
            },
    {
        match SelectionMatcher::new(settings.patterns(mode)) {
            Err(_) => Err(RunError::NoUsablePatterns),
            Ok(matcher) => Ok(
                BackupRun {
                    mode,
                    matcher,
                    page_size: settings.page_size(mode),
                    prefix: settings.prefix.clone(),
                    suffix: settings.suffix.clone(),
                    date,
                    stage: Stage::Listing,
                    selected: Vec::new(),
                    reports: Vec::new(),
                },
            ),
        }
    }

    /// What to ask for once the collections are chosen.
    fn ask(&self) -> (action: RunAction)
        requires
            self.stage is Chosen,
        ensures
            self@.asks(action),
    {
        proof {
            use_type_invariant(self);
        }
        let at = self.reports.len();
        if at < self.selected.len() {
            RunAction::Backup { collection: self.selected[at].clone(), page_size: self.page_size }
        } else {
            RunAction::Report
        }
    }

    /// Tells the run what happened and learns what to do next. An event
    /// that has no place where the run stands is ignored. A collection that
    /// failed is recorded like any other: the run goes on to the next.
    pub fn step(&mut self, event: RunEvent) -> (action: RunAction)
        ensures
            old(self)@.consistent(),
            final(self)@.consistent(),
            old(self)@.steps_to(event, final(self)@, action),
    {
        proof {
            use_type_invariant(&*self);
        }
        let working = self.reports.len() < self.selected.len();
        match (self.stage, event) {
            (Stage::Listing, RunEvent::Collections(names)) => {
                self.stage = Stage::Chosen;
                self.selected = self.matcher.select(&names);
                self.ask()
            },
            (Stage::Listing, RunEvent::SourceFailed(reason)) => {
                self.stage = Stage::Aborted;
                RunAction::Abort(RunError::SourceUnavailable(reason))
            },
            (Stage::Listing, RunEvent::StoreFailed(reason)) => {
                self.stage = Stage::Aborted;
                RunAction::Abort(RunError::StoreUnavailable(reason))
            },
            (
                Stage::Chosen,
                RunEvent::CollectionDone { outcome, chunks_uploaded, chunks_dropped },
            ) => {
                if working {
                    let at = self.reports.len();
                    let name = self.selected[at].clone();
                    let mut reports: Vec<CollectionReport> = Vec::new();
                    core::mem::swap(&mut self.reports, &mut reports);
                    reports.push(
                        CollectionReport { name, outcome, chunks_uploaded, chunks_dropped },
                    );
                    core::mem::swap(&mut self.reports, &mut reports);
                    proof {
                        assert(self.reports@.drop_last() =~= old(self).reports@);
                    }
                    self.ask()
                } else {
                    RunAction::Ignore
                }
            },
            _ => RunAction::Ignore,
        }
    }

    /// The pipeline of the collection in hand; `None` where the run has none
    /// in hand.
    pub fn pipeline(&self) -> (pipeline: Option<Pipeline>)
        ensures
            pipeline is Some <==> self@.phase is Working,
            pipeline matches Some(p) ==> p@ == PipelineView::start(
                self@.prefix,
                self@.date,
                self@.suffix,
                self@.current(),
            ),
    {
        proof {
            use_type_invariant(self);
        }
        let at = self.reports.len();
        match self.stage {
            Stage::Chosen => {
                if at < self.selected.len() {
                    Some(
                        Pipeline::new(
                            self.prefix.as_str(),
                            self.date,
                            self.suffix.as_str(),
                            self.selected[at].as_str(),
                        ),
                    )
                } else {
                    None
                }
            },
            _ => None,
        }
    }

    /// How far the run has come.
    pub fn phase(&self) -> (phase: Phase)
        ensures
            phase == self@.phase,
            self@.consistent(),
    {
        proof {
            use_type_invariant(self);
        }
        match self.stage {
            Stage::Listing => Phase::Listing,
            Stage::Aborted => Phase::Aborted,
            Stage::Chosen => if self.reports.len() < self.selected.len() {
                Phase::Working
            } else {
                Phase::Finished
            },
        }
    }

    /// The chosen collections, in the order they are taken.
    pub fn selected(&self) -> (names: &Vec<String>)
        ensures
            texts(names@) == self@.selected,
    {
        &self.selected
    }

    /// The numbers of the run as far as it has come, with the time it took.
    pub fn summary(self, elapsed_millis: u64) -> (summary: RunSummary)
        ensures
            summary.mode == self@.mode,
            texts(summary.selected@) == self@.selected,
            summary.reports@ == self@.reports,
            summary.processed == count_processed(self@.reports),
            summary.processed + summary.failed == self@.reports.len(),
            summary.chunks_dropped == capped(count_dropped(self@.reports)),
            summary.elapsed_millis == elapsed_millis,
    {
        proof {
            use_type_invariant(&self);
        }
        let mut processed: usize = 0;
        let mut chunks_dropped: u64 = 0;
        let mut i: usize = 0;
        while i < self.reports.len()
            invariant
                i <= self.reports.len(),
                processed <= i,
                processed == count_processed(self.reports@.take(i as int)),
                chunks_dropped == capped(count_dropped(self.reports@.take(i as int))),
            decreases self.reports.len() - i,
        {
            proof {
                assert(self.reports@.take(i + 1).drop_last() =~= self.reports@.take(i as int));
            }
            if let BackupOutcome::Processed(_) = self.reports[i].outcome {
                processed += 1;
            }
            let lost = self.reports[i].chunks_dropped;
            chunks_dropped = if chunks_dropped > u64::MAX - lost {
                u64::MAX
            } else {
                chunks_dropped + lost
            };
            i += 1;
        }
        proof {
            assert(self.reports@.take(i as int) =~= self.reports@);
        }
        let failed = self.reports.len() - processed;
        RunSummary {
            mode: self.mode,
            selected: self.selected,
            reports: self.reports,
            processed,
            failed,
            chunks_dropped,
            elapsed_millis,
        }
    }
}

/// Once the collections are chosen no event gives the run up: whatever
/// becomes of a collection, the run goes on working or finishes.
pub proof fn lemma_collections_never_abort(
    before: RunView,
    event: RunEvent,
    after: RunView,
    action: RunAction,
)
    requires
        before.phase is Working || before.phase is Finished,
        before.steps_to(event, after, action),
    ensures
        after.phase is Working || after.phase is Finished,
        !(action is Abort),
{
}

/// The run is given up only while the collections are being listed, and
/// only because the source or the store could not be had.
pub proof fn lemma_abort_is_setup(before: RunView, event: RunEvent, after: RunView, action: RunAction)
    requires
        before.steps_to(event, after, action),
        action is Abort,
    ensures
        before.phase is Listing,
        event is SourceFailed || event is StoreFailed,
        after.phase is Aborted,
{
}

/// Each step keeps the records in step with the choice.
pub proof fn lemma_step_keeps_consistent(
    before: RunView,
    event: RunEvent,
    after: RunView,
    action: RunAction,
)
    requires
        before.consistent(),
        before.steps_to(event, after, action),
    ensures
        after.consistent(),
{
    match (before.phase, event) {
        (Phase::Working, RunEvent::CollectionDone { .. }) => {
            assert forall|i: int| 0 <= i < after.reports.len() implies (
            #[trigger] after.reports[i]).name@ == after.selected[i] by {
                if i < before.reports.len() {
                    assert(after.reports.drop_last()[i] == after.reports[i]);
                }
            }
        },
        _ => {},
    }
}

/// The run chooses by the patterns it was begun with: what its usable
/// patterns select among the names, the patterns select.
pub proof fn lemma_run_selects_by_patterns(
    names: Seq<Seq<char>>,
    patterns: Seq<Seq<char>>,
    sources: Seq<Seq<char>>,
    chosen: Seq<Seq<char>>,
)
    requires
        forall|name: Seq<char>| #[trigger] selected(sources, name) <==> selected(patterns, name),
        is_selection(names, sources, chosen),
    ensures
        is_selection(names, patterns, chosen),
{
    assert forall|name: Seq<char>| #[trigger]
        chosen.contains(name) <==> names.contains(name) && selected(patterns, name) by {
        assert(selected(sources, name) <==> selected(patterns, name));
    }
}

/// Whether `states`, `events` and `actions` tell of a stretch of a run:
/// each event leads from one state to the next with its action.
pub open spec fn is_course(
    states: Seq<RunView>,
    events: Seq<RunEvent>,
    actions: Seq<RunAction>,
) -> bool {
    &&& states.len() == events.len() + 1
    &&& actions.len() == events.len()
    &&& forall|i: int|
        0 <= i < events.len() ==> states[i].steps_to(
            #[trigger] events[i],
            states[i + 1],
            actions[i],
        )
}

/// The chosen collections are taken one after the other, in their order:
/// while the run is told of one finished pipeline after the other, it asks
/// for the next collection each time, and for the report after the last.
pub proof fn lemma_collections_taken_in_order(
    states: Seq<RunView>,
    events: Seq<RunEvent>,
    actions: Seq<RunAction>,
    taken: int,
)
    requires
        is_course(states, events, actions),
        states[0].consistent(),
        states[0].phase is Working,
        forall|i: int| 0 <= i < events.len() ==> #[trigger] events[i] is CollectionDone,
        0 <= taken < events.len(),
        states[0].reports.len() + taken < states[0].selected.len(),
    ensures
        states[taken + 1].selected == states[0].selected,
        states[taken + 1].reports.len() == states[0].reports.len() + taken + 1,
        states[taken + 1].asks(actions[taken]),
        states[taken + 1].reports.len() < states[0].selected.len() ==> {
            &&& actions[taken] matches RunAction::Backup { collection, .. }
            &&& collection@ == states[0].selected[states[taken + 1].reports.len() as int]
        },
        states[taken + 1].reports.len() == states[0].selected.len() ==> actions[taken] is Report,
    decreases taken,
{
    if taken > 0 {
        lemma_collections_taken_in_order(states, events, actions, taken - 1);
    }
    assert(events[taken] is CollectionDone);
    assert(states[taken].steps_to(events[taken], states[taken + 1], actions[taken]));
}

} // verus!
