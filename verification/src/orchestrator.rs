//! The fetch orchestrator: a state machine that takes what happened outside
//! and says what to do next.
//!
//! The caller runs the loop.  It starts with `Event::Start`, performs the
//! action that `step` hands back, and reports the result as the next event,
//! until the action is `Action::Finish`.  Tasks are joined in dispatch
//! order, so the report lists the outcomes in the order of the feed's
//! entries whatever the order in which the fetches complete.

use crate::article::{FetchOutcome, OutcomeView, Report};
use crate::feed::{Feed, FeedError, FeedErrorView};
use crate::plan::{copy_tasks, first_links, plan_tasks, FetchTask};
use vstd::prelude::*;

verus! {

/// Where a run stands.
#[derive(Debug, Clone, Copy, PartialEq, Eq, Structural)]
pub enum Phase {
    /// Nothing has happened yet.
    Idle,
    /// The feed has been asked for.
    FeedFetching,
    /// The tasks are known and are being handed out.
    Dispatching,
    /// Every task runs; their outcomes are collected one by one.
    Awaiting,
    /// The run is over.
    Done,
}

/// What happened outside since the last step.
#[derive(Debug, PartialEq, Eq)]
pub enum Event {
    /// The run starts.
    Start,
    /// The feed fetcher has answered.
    FeedFetched(Result<Feed, FeedError>),
    /// Every task of the last `Action::Dispatch` has been started.
    Dispatched,
    /// The task named by the last `Action::Join` has been waited for: it
    /// returned an outcome, or it did not run to completion, for the cause
    /// given.
    Joined(Result<FetchOutcome, String>),
}

/// The model of an `Event`.
pub enum EventView {
    Start,
    FeedFetched(Result<Seq<Seq<Seq<char>>>, FeedErrorView>),
    Dispatched,
    Joined(Result<OutcomeView, Seq<char>>),
}

impl View for Event {
    type V = EventView;

    open spec fn view(&self) -> EventView {
        match self {
            Event::Start => EventView::Start,
            Event::FeedFetched(Ok(feed)) => EventView::FeedFetched(Ok(feed@)),
            Event::FeedFetched(Err(error)) => EventView::FeedFetched(Err(error@)),
            Event::Dispatched => EventView::Dispatched,
            Event::Joined(Ok(outcome)) => EventView::Joined(Ok(outcome@)),
            Event::Joined(Err(cause)) => EventView::Joined(Err(cause@)),
        }
    }
}

/// What the caller is to do next.
#[derive(Debug, PartialEq, Eq)]
pub enum Action {
    /// Fetch the feed at `url` and report `Event::FeedFetched`.
    FetchFeed { url: String },
    /// Start one concurrent fetch per task, all at once, and report
    /// `Event::Dispatched`.
    Dispatch { tasks: Vec<FetchTask> },
    /// Wait for the task at `index` of the dispatched list and report
    /// `Event::Joined`.
    Join { index: usize },
    /// The run is over: render the report.
    Finish,
    /// The event does not fit the phase.  Nothing has changed.
    Ignore,
}

/// The model of an `Action`.
pub enum ActionView {
    FetchFeed { url: Seq<char> },
    Dispatch { tasks: Seq<Seq<char>> },
    Join { index: nat },
    Finish,
    Ignore,
}

impl View for Action {
    type V = ActionView;

    open spec fn view(&self) -> ActionView {
        match self {
            Action::FetchFeed { url } => ActionView::FetchFeed { url: url@ },
            Action::Dispatch { tasks } => ActionView::Dispatch { tasks: tasks.deep_view() },
            Action::Join { index } => ActionView::Join { index: *index as nat },
            Action::Finish => ActionView::Finish,
            Action::Ignore => ActionView::Ignore,
        }
    }
}

/// The outcome recorded for a task that was waited for: what the task
/// returned, or a `TaskFailure` where it did not run to completion.
pub open spec fn joined_outcome(joined: Result<OutcomeView, Seq<char>>) -> OutcomeView {
    match joined {
        Ok(outcome) => outcome,
        Err(cause) => OutcomeView::TaskFailure { cause },
    }
}

/// The model of what waiting for a task hands back.
pub open spec fn joined_view(joined: Result<FetchOutcome, String>) -> Result<
    OutcomeView,
    Seq<char>,
> {
    match joined {
        Ok(outcome) => Ok(outcome@),
        Err(cause) => Err(cause@),
    }
}

/// Classifies what waiting for one task handed back.
pub fn classify_join(joined: Result<FetchOutcome, String>) -> (outcome: FetchOutcome)
    ensures
        outcome@ == joined_outcome(joined_view(joined)),
{
    match joined {
        Ok(outcome) => outcome,
        Err(cause) => FetchOutcome::TaskFailure { cause },
    }
}

/// The model of an `Orchestrator`.
pub struct OrchestratorView {
    pub phase: Phase,
    /// The URL of the feed.
    pub feed_url: Seq<char>,
    /// The URLs of the dispatched tasks, in dispatch order.
    pub tasks: Seq<Seq<char>>,
    /// The outcomes collected so far: `report[i]` belongs to `tasks[i]`.
    pub report: Seq<OutcomeView>,
    /// The error that ended the run, if the feed could not be had.
    pub fatal: Option<FeedErrorView>,
}

impl OrchestratorView {
    /// The state before the run starts.
    pub open spec fn initial(feed_url: Seq<char>) -> OrchestratorView {
        OrchestratorView {
            phase: Phase::Idle,
            feed_url,
            tasks: Seq::empty(),
            report: Seq::empty(),
            fatal: None,
        }
    }

    /// What holds of every state that a run passes through.
    pub open spec fn wf(self) -> bool {
        &&& self.report.len() <= self.tasks.len()
        &&& self.phase is Idle || self.phase is FeedFetching ==> self.tasks.len() == 0
        &&& self.phase is Dispatching ==> self.report.len() == 0
        &&& self.phase is Awaiting ==> self.report.len() < self.tasks.len()
        &&& self.phase is Done && self.fatal is None ==> self.report.len() == self.tasks.len()
        &&& self.fatal is Some ==> self.phase is Done && self.tasks.len() == 0
    }

    /// The state with another phase.
    pub open spec fn at(self, phase: Phase) -> OrchestratorView {
        OrchestratorView { phase, ..self }
    }

    /// Moves on after a task was started or joined: to the next task that
    /// has no outcome yet, or to the end when every task has one.
    pub open spec fn await_next(self) -> (OrchestratorView, ActionView) {
        if self.report.len() >= self.tasks.len() {
            (self.at(Phase::Done), ActionView::Finish)
        } else {
            (self.at(Phase::Awaiting), ActionView::Join { index: self.report.len() })
        }
    }

    /// The transition function: the state after `event`, and the action that
    /// the event calls for.
    pub open spec fn next(self, event: EventView) -> (OrchestratorView, ActionView) {
        match self.phase {
            Phase::Idle => match event {
                EventView::Start => (
                    self.at(Phase::FeedFetching),
                    ActionView::FetchFeed { url: self.feed_url },
                ),
                _ => (self, ActionView::Ignore),
            },
            Phase::FeedFetching => match event {
                EventView::FeedFetched(Ok(entries)) => (
                    OrchestratorView {
                        phase: Phase::Dispatching,
                        tasks: first_links(entries),
                        ..self
                    },
                    ActionView::Dispatch { tasks: first_links(entries) },
                ),
                EventView::FeedFetched(Err(error)) => (
                    OrchestratorView { phase: Phase::Done, fatal: Some(error), ..self },
                    ActionView::Finish,
                ),
                _ => (self, ActionView::Ignore),
            },
            Phase::Dispatching => match event {
                EventView::Dispatched => self.await_next(),
                _ => (self, ActionView::Ignore),
            },
            Phase::Awaiting => match event {
                EventView::Joined(joined) => (OrchestratorView {
                    report: self.report.push(joined_outcome(joined)),
                    ..self
                }).await_next(),
                _ => (self, ActionView::Ignore),
            },
            Phase::Done => (self, ActionView::Ignore),
        }
    }
}

/// The state of one run.
pub struct Orchestrator {
    phase: Phase,
    feed_url: String,
    tasks: Vec<FetchTask>,
    report: Report,
    fatal: Option<FeedError>,
}

impl View for Orchestrator {
    type V = OrchestratorView;

    closed spec fn view(&self) -> OrchestratorView {
        OrchestratorView {
            phase: self.phase,
            feed_url: self.feed_url@,
            tasks: self.tasks.deep_view(),
            report: self.report.deep_view(),
            fatal: match self.fatal {
                Some(error) => Some(error@),
                None => None,
            },
        }
    }
}

impl Orchestrator {
    /// A run for the feed at `feed_url`, not yet started.
    pub fn new(feed_url: String) -> (orchestrator: Orchestrator)
        ensures
            orchestrator@ == OrchestratorView::initial(feed_url@),
            orchestrator@.wf(),
    {
        let orchestrator = Orchestrator {
            phase: Phase::Idle,
            feed_url,
            tasks: Vec::new(),
            report: Vec::new(),
            fatal: None,
        };
        assert(orchestrator.tasks.deep_view() =~= Seq::empty());
        assert(orchestrator.report.deep_view() =~= Seq::empty());
        orchestrator
    }

    /// Where the run stands.
    pub fn phase(&self) -> (phase: Phase)
        ensures
            phase == self@.phase,
    {
        self.phase
    }

    /// Whether the run is over.
    pub fn is_done(&self) -> (done: bool)
        ensures
            done == (self@.phase is Done),
    {
        match self.phase {
            Phase::Done => true,
            _ => false,
        }
    }

    /// The URL of the feed.
    pub fn feed_url(&self) -> (url: &String)
        ensures
            url@ == self@.feed_url,
    {
        &self.feed_url
    }

    /// The dispatched tasks, in dispatch order.
    pub fn tasks(&self) -> (tasks: &Vec<FetchTask>)
        ensures
            tasks.deep_view() == self@.tasks,
    {
        &self.tasks
    }

    /// The outcomes collected so far, in dispatch order.
    pub fn report(&self) -> (report: &Report)
        ensures
            report.deep_view() == self@.report,
    {
        &self.report
    }

    /// The error that ended the run, if the feed could not be had.
    pub fn fatal(&self) -> (fatal: &Option<FeedError>)
        ensures
            match fatal {
                Some(error) => self@.fatal == Some(error@),
                None => self@.fatal is None,
            },
    {
        &self.fatal
    }

    /// Moves on to the next task without an outcome, or ends the run.
    fn await_next(&mut self) -> (action: Action)
        ensures
            (final(self)@, action@) == old(self)@.await_next(),
    {
        if self.report.len() >= self.tasks.len() {
            self.phase = Phase::Done;
            Action::Finish
        } else {
            self.phase = Phase::Awaiting;
            Action::Join { index: self.report.len() }
        }
    }

    /// Takes one event and says what to do next.
    ///
    /// An event that does not fit the phase changes nothing and is answered
    /// with `Action::Ignore`.
    pub fn step(&mut self, event: Event) -> (action: Action)
        ensures
            (final(self)@, action@) == old(self)@.next(event@),
            old(self)@.wf() ==> final(self)@.wf(),
    {
        match self.phase {
            Phase::Idle => match event {
                Event::Start => {
                    self.phase = Phase::FeedFetching;
                    Action::FetchFeed { url: self.feed_url.clone() }
                },
                _ => Action::Ignore,
            },
            Phase::FeedFetching => match event {
                Event::FeedFetched(Ok(feed)) => {
                    let tasks = plan_tasks(&feed);
                    let copies = copy_tasks(&tasks);
                    self.tasks = tasks;
                    self.phase = Phase::Dispatching;
                    Action::Dispatch { tasks: copies }
                },
                Event::FeedFetched(Err(error)) => {
                    self.fatal = Some(error);
                    self.phase = Phase::Done;
                    Action::Finish
                },
                _ => Action::Ignore,
            },
            Phase::Dispatching => match event {
                Event::Dispatched => self.await_next(),
                _ => Action::Ignore,
            },
            Phase::Awaiting => match event {
                Event::Joined(joined) => {
                    let ghost before = self.report.deep_view();
                    let outcome = classify_join(joined);
                    self.report.push(outcome);
                    assert(self.report.deep_view() =~= before.push(outcome@));
                    self.await_next()
                },
                _ => Action::Ignore,
            },
            Phase::Done => Action::Ignore,
        }
    }
}

} // verus!
