//! The lines in which a run is reported: one for each outcome, or one for
//! the error that ended the run.

use crate::article::{FetchOutcome, OutcomeView};
use crate::feed::{FeedError, FeedErrorView};
use crate::orchestrator::{Orchestrator, OrchestratorView};
use crate::plan::FetchTask;
use crate::text::{decimal, decimal_digits};
use vstd::prelude::*;

verus! {

/// How a line is to be logged.
#[derive(Debug, Clone, Copy, PartialEq, Eq, Structural)]
pub enum Severity {
    Info,
    Error,
}

/// One line of the report.
#[derive(Debug, Clone, PartialEq, Eq)]
pub struct LogLine {
    pub severity: Severity,
    pub text: String,
}

/// The model of a `LogLine`.
pub struct LineView {
    pub severity: Severity,
    pub text: Seq<char>,
}

impl View for LogLine {
    type V = LineView;

    open spec fn view(&self) -> LineView {
        LineView { severity: self.severity, text: self.text@ }
    }
}

impl DeepView for LogLine {
    type V = LineView;

    open spec fn deep_view(&self) -> LineView {
        self@
    }
}

/// The line for the outcome of the task bound to `task_url`.
///
/// A success names the URL and the size in bytes.  A failure names the URL
/// and the cause; for a task that did not run to completion the URL is that
/// of the task.
pub open spec fn outcome_line(task_url: Seq<char>, outcome: OutcomeView) -> LineView {
    match outcome {
        OutcomeView::Success { url, byte_size } => LineView {
            severity: Severity::Info,
            text: "Article from "@ + url + " downloaded, size: "@ + decimal_digits(byte_size)
                + " bytes"@,
        },
        OutcomeView::ApplicationError { url, cause } => LineView {
            severity: Severity::Error,
            text: "Error downloading article "@ + url + ": "@ + cause,
        },
        OutcomeView::TaskFailure { cause } => LineView {
            severity: Severity::Error,
            text: "Worker task for "@ + task_url + " failed: "@ + cause,
        },
    }
}

/// The line for the error that ended a run.
pub open spec fn fatal_line(error: FeedErrorView) -> LineView {
    LineView {
        severity: Severity::Error,
        text: "Error fetching feed: "@ + match error {
            FeedErrorView::TransportError { cause } => cause,
            FeedErrorView::ParseError { cause } => cause,
        },
    }
}

/// The lines of a run: the fatal error alone if there is one; otherwise one
/// line for each outcome, in dispatch order, each with the URL of its task.
pub open spec fn report_lines(run: OrchestratorView) -> Seq<LineView> {
    match run.fatal {
        Some(error) => seq![fatal_line(error)],
        None => Seq::new(
            if run.report.len() <= run.tasks.len() {
                run.report.len()
            } else {
                run.tasks.len()
            },
            |i: int| outcome_line(run.tasks[i], run.report[i]),
        ),
    }
}

/// Writes the line for one outcome.
pub fn render_outcome(task: &FetchTask, outcome: &FetchOutcome) -> (line: LogLine)
    ensures
        line@ == outcome_line(task@, outcome@),
{
    match outcome {
        FetchOutcome::Success { url, byte_size } => {
            let mut text = String::from_str("Article from ");
            text.append(url.as_str());
            text.append(" downloaded, size: ");
            let size = decimal(*byte_size);
            text.append(size.as_str());
            text.append(" bytes");
            LogLine { severity: Severity::Info, text }
        },
        FetchOutcome::ApplicationError { url, cause } => {
            let mut text = String::from_str("Error downloading article ");
            text.append(url.as_str());
            text.append(": ");
            text.append(cause.as_str());
            LogLine { severity: Severity::Error, text }
        },
        FetchOutcome::TaskFailure { cause } => {
            let mut text = String::from_str("Worker task for ");
            text.append(task.url.as_str());
            text.append(" failed: ");
            text.append(cause.as_str());
            LogLine { severity: Severity::Error, text }
        },
    }
}

/// Writes the line for the error that ended a run.
pub fn render_fatal(error: &FeedError) -> (line: LogLine)
    ensures
        line@ == fatal_line(error@),
{
    let mut text = String::from_str("Error fetching feed: ");
    match error {
        FeedError::TransportError { cause } => text.append(cause.as_str()),
        FeedError::ParseError { cause } => text.append(cause.as_str()),
    }
    LogLine { severity: Severity::Error, text }
}

/// Writes the lines of a run.
pub fn render_report(run: &Orchestrator) -> (lines: Vec<LogLine>)
    ensures
        lines.deep_view() == report_lines(run@),
{
    let mut lines: Vec<LogLine> = Vec::new();
    match run.fatal() {
        Some(error) => {
            lines.push(render_fatal(error));
            assert(lines.deep_view() =~= seq![fatal_line(error@)]);
        },
        None => {
            let tasks = run.tasks();
            let report = run.report();
            let count = if report.len() <= tasks.len() {
                report.len()
            } else {
                tasks.len()
            };
            for i in 0..count
                invariant
                    count <= tasks.len(),
                    count <= report.len(),
                    lines.len() == i,
                    forall|k: int|
                        0 <= k < i ==> lines[k]@ == outcome_line(
                            #[trigger] tasks[k]@,
                            report[k]@,
                        ),
            {
                lines.push(render_outcome(&tasks[i], &report[i]));
            }
            assert(lines.deep_view() =~= report_lines(run@));
        },
    }
    lines
}

} // verus!
