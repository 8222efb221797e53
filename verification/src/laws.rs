//! What holds of every run of the orchestrator, stated over its transition
//! function and proved once for all inputs.

use crate::article::{article_outcome, OutcomeView};
use crate::feed::{feed_fetch, FeedErrorView};
use crate::http::{is_success, ResponseView};
use crate::orchestrator::{joined_outcome, ActionView, EventView, OrchestratorView, Phase};
use crate::plan::{first_link, first_links};
use crate::report::{fatal_line, outcome_line, report_lines};
use vstd::prelude::*;

verus! {

/// The state that a run reaches from `start` when `events` are reported in
/// order.
pub open spec fn run(start: OrchestratorView, events: Seq<EventView>) -> OrchestratorView
    decreases events.len(),
{
    if events.len() == 0 {
        start
    } else {
        run(start, events.drop_last()).next(events.last()).0
    }
}

/// The actions that a run from `start` hands back, one for each of `events`.
pub open spec fn actions(start: OrchestratorView, events: Seq<EventView>) -> Seq<ActionView>
    decreases events.len(),
{
    if events.len() == 0 {
        Seq::empty()
    } else {
        actions(start, events.drop_last()).push(
            run(start, events.drop_last()).next(events.last()).1,
        )
    }
}

/// The events of waiting for each task in turn.
pub open spec fn join_events(joins: Seq<Result<OutcomeView, Seq<char>>>) -> Seq<EventView> {
    joins.map_values(|joined: Result<OutcomeView, Seq<char>>| EventView::Joined(joined))
}

/// The events of a run whose feed fetch succeeds with `entries` and whose
/// tasks, waited for in dispatch order, hand back `joins`.
pub open spec fn complete_run(
    entries: Seq<Seq<Seq<char>>>,
    joins: Seq<Result<OutcomeView, Seq<char>>>,
) -> Seq<EventView> {
    seq![EventView::Start, EventView::FeedFetched(Ok(entries)), EventView::Dispatched]
        + join_events(joins)
}

/// The events of a run whose feed fetch fails with `error`.
pub open spec fn failed_run(error: FeedErrorView) -> Seq<EventView> {
    seq![EventView::Start, EventView::FeedFetched(Err(error))]
}

/// The report that `joins` amount to: one outcome for each, in order.
pub open spec fn outcomes_of(joins: Seq<Result<OutcomeView, Seq<char>>>) -> Seq<OutcomeView> {
    joins.map_values(|joined: Result<OutcomeView, Seq<char>>| joined_outcome(joined))
}

/// The number of entries that carry at least one link.
pub open spec fn linked_entries(entries: Seq<Seq<Seq<char>>>) -> nat {
    entries.filter(|links: Seq<Seq<char>>| links.len() > 0).len()
}

/// Reporting one more event takes one more step.
pub proof fn lemma_run_push(start: OrchestratorView, events: Seq<EventView>, event: EventView)
    ensures
        run(start, events.push(event)) == run(start, events).next(event).0,
        actions(start, events.push(event)) == actions(start, events).push(
            run(start, events).next(event).1,
        ),
{
    assert(events.push(event).drop_last() =~= events);
}

/// Every transition keeps a well-formed state well-formed.
pub proof fn law_step_preserves_wf(state: OrchestratorView, event: EventView)
    requires
        state.wf(),
    ensures
        state.next(event).0.wf(),
{
}

/// Every state of every run is well-formed.  In particular a run that ended
/// without a fatal error holds exactly one outcome for each dispatched task,
/// and no run ever holds more outcomes than tasks.
pub proof fn law_every_run_is_well_formed(feed_url: Seq<char>, events: Seq<EventView>)
    ensures
        run(OrchestratorView::initial(feed_url), events).wf(),
    decreases events.len(),
{
    if events.len() > 0 {
        law_every_run_is_well_formed(feed_url, events.drop_last());
        law_step_preserves_wf(
            run(OrchestratorView::initial(feed_url), events.drop_last()),
            events.last(),
        );
    }
}

/// `Done` is terminal: no event changes a finished run or calls for an
/// action.
pub proof fn law_done_is_terminal(state: OrchestratorView, events: Seq<EventView>)
    requires
        state.phase is Done,
    ensures
        run(state, events) == state,
        actions(state, events) == Seq::new(events.len(), |i: int| ActionView::Ignore),
    decreases events.len(),
{
    if events.len() > 0 {
        law_done_is_terminal(state, events.drop_last());
    }
    assert(actions(state, events) =~= Seq::new(events.len(), |i: int| ActionView::Ignore));
}

/// Reporting `first` and then `later` is a run to the state after `first`,
/// continued with `later`.
pub proof fn lemma_run_concat(start: OrchestratorView, first: Seq<EventView>, later: Seq<EventView>)
    ensures
        run(start, first + later) == run(run(start, first), later),
        actions(start, first + later) == actions(start, first) + actions(
            run(start, first),
            later,
        ),
    decreases later.len(),
{
    if later.len() == 0 {
        assert(first + later =~= first);
        assert(actions(start, first) + actions(run(start, first), later) =~= actions(
            start,
            first,
        ));
    } else {
        lemma_run_concat(start, first, later.drop_last());
        assert((first + later).drop_last() =~= first + later.drop_last());
        assert((first + later).last() == later.last());
        assert(actions(start, first + later) =~= actions(start, first) + actions(
            run(start, first),
            later,
        ));
    }
}

/// A failed feed fetch is fatal.  The run ends at once with that one error
/// and an empty report; no task is dispatched or waited for, then or later.
pub proof fn law_feed_failure_is_fatal(
    feed_url: Seq<char>,
    error: FeedErrorView,
    later: Seq<EventView>,
)
    ensures
        ({
            let start = OrchestratorView::initial(feed_url);
            let end = run(start, failed_run(error) + later);
            &&& end.phase is Done
            &&& end.fatal == Some(error)
            &&& end.report.len() == 0
            &&& end.tasks.len() == 0
            &&& report_lines(end) == seq![fatal_line(error)]
            &&& actions(start, failed_run(error) + later) == seq![
                ActionView::FetchFeed { url: feed_url },
                ActionView::Finish,
            ] + Seq::new(later.len(), |i: int| ActionView::Ignore)
        }),
{
    let start = OrchestratorView::initial(feed_url);
    let started = seq![EventView::Start];
    lemma_run_push(start, Seq::empty(), EventView::Start);
    assert(Seq::<EventView>::empty().push(EventView::Start) =~= started);
    lemma_run_push(start, started, EventView::FeedFetched(Err(error)));
    assert(started.push(EventView::FeedFetched(Err(error))) =~= failed_run(error));
    let failed = run(start, failed_run(error));
    assert(actions(start, failed_run(error)) =~= seq![
        ActionView::FetchFeed { url: feed_url },
        ActionView::Finish,
    ]);
    lemma_run_concat(start, failed_run(error), later);
    law_done_is_terminal(failed, later);
}

/// The events of waiting, one by one, for some of the tasks that a run
/// still awaits: each outcome joins the report, and the run is done when the
/// last task has its outcome.
proof fn lemma_joins(state: OrchestratorView, joins: Seq<Result<OutcomeView, Seq<char>>>)
    requires
        state.wf(),
        state.phase is Awaiting,
        state.report.len() + joins.len() <= state.tasks.len(),
    ensures
        run(state, join_events(joins)) == (OrchestratorView {
            phase: if state.report.len() + joins.len() == state.tasks.len() {
                Phase::Done
            } else {
                Phase::Awaiting
            },
            report: state.report + outcomes_of(joins),
            ..state
        }),
        actions(state, join_events(joins)) == Seq::new(
            joins.len(),
            |i: int|
                if state.report.len() + i + 1 == state.tasks.len() {
                    ActionView::Finish
                } else {
                    ActionView::Join { index: (state.report.len() + i + 1) as nat }
                },
        ),
    decreases joins.len(),
{
    let expected = Seq::new(
        joins.len(),
        |i: int|
            if state.report.len() + i + 1 == state.tasks.len() {
                ActionView::Finish
            } else {
                ActionView::Join { index: (state.report.len() + i + 1) as nat }
            },
    );
    if joins.len() == 0 {
        assert(state.report + outcomes_of(joins) =~= state.report);
        assert(actions(state, join_events(joins)) =~= expected);
    } else {
        let earlier = joins.drop_last();
        lemma_joins(state, earlier);
        assert(join_events(joins).drop_last() =~= join_events(earlier));
        assert(join_events(joins).last() == EventView::Joined(joins.last()));
        assert((state.report + outcomes_of(earlier)).push(joined_outcome(joins.last()))
            =~= state.report + outcomes_of(joins));
        assert(actions(state, join_events(joins)) =~= expected);
    }
}

/// A run whose feed fetch succeeds dispatches the first link of every entry
/// that has one, in document order, waits for each task in dispatch order,
/// and ends with a report that holds, for each task in that order, the
/// outcome that waiting for it handed back.
pub proof fn law_complete_run(
    feed_url: Seq<char>,
    entries: Seq<Seq<Seq<char>>>,
    joins: Seq<Result<OutcomeView, Seq<char>>>,
)
    requires
        joins.len() == first_links(entries).len(),
    ensures
        ({
            let start = OrchestratorView::initial(feed_url);
            let end = run(start, complete_run(entries, joins));
            &&& end.phase is Done
            &&& end.fatal is None
            &&& end.tasks == first_links(entries)
            &&& end.report == outcomes_of(joins)
            &&& actions(start, complete_run(entries, joins)) == seq![
                ActionView::FetchFeed { url: feed_url },
                ActionView::Dispatch { tasks: first_links(entries) },
            ] + Seq::new(joins.len(), |i: int| ActionView::Join { index: i as nat }) + seq![
                ActionView::Finish,
            ]
        }),
{
    let start = OrchestratorView::initial(feed_url);
    let fetched = EventView::FeedFetched(Ok(entries));
    let tasks = first_links(entries);
    let opening = seq![EventView::Start, fetched, EventView::Dispatched];
    lemma_run_push(start, Seq::empty(), EventView::Start);
    assert(Seq::<EventView>::empty().push(EventView::Start) =~= seq![EventView::Start]);
    lemma_run_push(start, seq![EventView::Start], fetched);
    assert(seq![EventView::Start].push(fetched) =~= seq![EventView::Start, fetched]);
    lemma_run_push(start, seq![EventView::Start, fetched], EventView::Dispatched);
    assert(seq![EventView::Start, fetched].push(EventView::Dispatched) =~= opening);
    let dispatched = run(start, opening);
    let first = if tasks.len() == 0 {
        ActionView::Finish
    } else {
        ActionView::Join { index: 0 }
    };
    assert(actions(start, opening) =~= seq![
        ActionView::FetchFeed { url: feed_url },
        ActionView::Dispatch { tasks },
        first,
    ]);
    lemma_run_concat(start, opening, join_events(joins));
    let expected = seq![
        ActionView::FetchFeed { url: feed_url },
        ActionView::Dispatch { tasks },
    ] + Seq::new(joins.len(), |i: int| ActionView::Join { index: i as nat }) + seq![
        ActionView::Finish,
    ];
    if tasks.len() == 0 {
        law_done_is_terminal(dispatched, join_events(joins));
        assert(dispatched.report =~= outcomes_of(joins));
        assert(actions(start, complete_run(entries, joins)) =~= expected);
    } else {
        lemma_joins(dispatched, joins);
        assert(dispatched.report + outcomes_of(joins) =~= outcomes_of(joins));
        assert(actions(start, complete_run(entries, joins)) =~= expected);
    }
}

/// As many tasks are planned as there are entries with a link.
pub proof fn lemma_first_links_len(entries: Seq<Seq<Seq<char>>>)
    ensures
        first_links(entries).len() == linked_entries(entries),
    decreases entries.len(),
{
    reveal(Seq::filter);
    if entries.len() > 0 {
        lemma_first_links_len(entries.drop_last());
    }
}

/// Cardinality: a run whose feed fetch succeeds with E entries that have a
/// link dispatches exactly E tasks and reports exactly E outcomes, whatever
/// mix of successes and failures the tasks end in.
pub proof fn law_one_outcome_per_linked_entry(
    feed_url: Seq<char>,
    entries: Seq<Seq<Seq<char>>>,
    joins: Seq<Result<OutcomeView, Seq<char>>>,
)
    requires
        joins.len() == linked_entries(entries),
    ensures
        ({
            let end = run(OrchestratorView::initial(feed_url), complete_run(entries, joins));
            &&& end.phase is Done
            &&& end.tasks.len() == linked_entries(entries)
            &&& end.report.len() == linked_entries(entries)
        }),
{
    lemma_first_links_len(entries);
    law_complete_run(feed_url, entries, joins);
}

/// Isolation: the outcome reported for a task is what waiting for that task
/// handed back, whatever became of the other tasks.  Two runs on the same
/// feed that agree on one task report the same outcome for it, and both
/// report an outcome for every task.
pub proof fn law_failures_are_isolated(
    feed_url: Seq<char>,
    entries: Seq<Seq<Seq<char>>>,
    joins: Seq<Result<OutcomeView, Seq<char>>>,
    others: Seq<Result<OutcomeView, Seq<char>>>,
    i: int,
)
    requires
        joins.len() == first_links(entries).len(),
        others.len() == first_links(entries).len(),
        0 <= i < joins.len(),
        joins[i] == others[i],
    ensures
        ({
            let start = OrchestratorView::initial(feed_url);
            let one = run(start, complete_run(entries, joins));
            let other = run(start, complete_run(entries, others));
            &&& one.report.len() == joins.len()
            &&& other.report.len() == joins.len()
            &&& one.report[i] == joined_outcome(joins[i])
            &&& other.report[i] == one.report[i]
        }),
{
    law_complete_run(feed_url, entries, joins);
    law_complete_run(feed_url, entries, others);
}

/// Planning distributes over concatenation of entry lists.
proof fn lemma_first_links_concat(before: Seq<Seq<Seq<char>>>, after: Seq<Seq<Seq<char>>>)
    ensures
        first_links(before + after) == first_links(before) + first_links(after),
    decreases after.len(),
{
    if after.len() == 0 {
        assert(before + after =~= before);
        assert(first_links(before) + first_links(after) =~= first_links(before));
    } else {
        lemma_first_links_concat(before, after.drop_last());
        assert((before + after).drop_last() =~= before + after.drop_last());
        assert((before + after).last() == after.last());
        assert(first_links(before + after) =~= first_links(before) + first_links(after));
    }
}

/// An entry without a link is excluded from dispatch: wherever it stands in
/// the feed, the planned tasks are those of the feed without it.
pub proof fn law_linkless_entries_are_skipped(
    before: Seq<Seq<Seq<char>>>,
    entry: Seq<Seq<char>>,
    after: Seq<Seq<Seq<char>>>,
)
    requires
        entry.len() == 0,
    ensures
        first_links(before + seq![entry] + after) == first_links(before + after),
{
    lemma_first_links_concat(before + seq![entry], after);
    lemma_first_links_concat(before, seq![entry]);
    lemma_first_links_concat(before, after);
    Seq::lemma_filter_map_singleton(entry, |links: Seq<Seq<char>>| first_link(links));
    assert(first_links(before) + first_links(seq![entry]) =~= first_links(before));
}

/// Where every entry has a link, every entry is dispatched: the tasks are
/// the entries' first links, one for one and in document order.
pub proof fn law_linked_entries_are_dispatched(entries: Seq<Seq<Seq<char>>>)
    requires
        forall|i: int| 0 <= i < entries.len() ==> (#[trigger] entries[i]).len() > 0,
    ensures
        first_links(entries) == Seq::new(entries.len(), |i: int| entries[i][0]),
    decreases entries.len(),
{
    if entries.len() > 0 {
        law_linked_entries_are_dispatched(entries.drop_last());
    }
    assert(first_links(entries) =~= Seq::new(entries.len(), |i: int| entries[i][0]));
}

/// A run is reported in full: a failed run by the line of its fatal error
/// alone, any other run by one line for each outcome collected, each with
/// the URL of the task that the outcome belongs to.
pub proof fn law_one_line_per_outcome(state: OrchestratorView)
    requires
        state.wf(),
    ensures
        state.fatal matches Some(error) ==> report_lines(state) == seq![fatal_line(error)],
        state.fatal is None ==> report_lines(state).len() == state.report.len(),
        state.fatal is None ==> forall|i: int|
            0 <= i < state.report.len() ==> #[trigger] report_lines(state)[i] == outcome_line(
                state.tasks[i],
                state.report[i],
            ),
{
}

/// Fetching a feed ends in one of three ways, and the response and the
/// parser decide which: a `TransportError` exactly when the request failed
/// or was answered with a status outside the success class; a `ParseError`
/// exactly when the body was accepted and the parser rejected it; the feed,
/// as the parser gave it, exactly when the body was accepted and parsed.
pub proof fn law_feed_fetch_outcomes(
    response: Result<ResponseView, Seq<char>>,
    parser: spec_fn(Seq<u8>) -> Result<Seq<Seq<Seq<char>>>, Seq<char>>,
)
    ensures
        ({
            let accepted = response is Ok && is_success(response->Ok_0.status);
            let fetched = feed_fetch(response, parser);
            &&& (fetched is Err && fetched->Err_0 is TransportError) <==> !accepted
            &&& (fetched is Err && fetched->Err_0 is ParseError) <==> accepted && parser(
                response->Ok_0.body,
            ) is Err
            &&& fetched is Ok <==> accepted && parser(response->Ok_0.body) is Ok
            &&& fetched is Ok ==> fetched->Ok_0 == parser(response->Ok_0.body)->Ok_0
        }),
{
}

/// An article's outcome is a `Success` exactly when the request was answered
/// with a status in the success class, and its size is then the exact length
/// of the body in bytes.
pub proof fn law_success_size_is_body_length(
    url: Seq<char>,
    response: Result<ResponseView, Seq<char>>,
)
    ensures
        article_outcome(url, response) is Success <==> response is Ok && is_success(
            response->Ok_0.status,
        ),
        article_outcome(url, response) is Success ==> article_outcome(url, response)
            == (OutcomeView::Success { url, byte_size: response->Ok_0.body.len() }),
{
}

} // verus!
