use feed_fetcher::article::{outcome_from_response, FetchOutcome};
use feed_fetcher::feed::{feed_body, feed_from_parse, Entry, Feed, FeedError};
use feed_fetcher::http::HttpResponse;
use feed_fetcher::orchestrator::{classify_join, Action, Event, Orchestrator, Phase};
use feed_fetcher::plan::FetchTask;

fn entry(links: &[&str]) -> Entry {
    Entry { links: links.iter().map(|link| link.to_string()).collect() }
}

fn feed(urls: &[&str]) -> Feed {
    Feed { entries: urls.iter().map(|url| entry(&[url])).collect() }
}

fn task(url: &str) -> FetchTask {
    FetchTask { url: url.to_string() }
}

fn success(url: &str, byte_size: usize) -> FetchOutcome {
    FetchOutcome::Success { url: url.to_string(), byte_size }
}

fn application_error(url: &str, cause: &str) -> FetchOutcome {
    FetchOutcome::ApplicationError { url: url.to_string(), cause: cause.to_string() }
}

fn task_failure(cause: &str) -> FetchOutcome {
    FetchOutcome::TaskFailure { cause: cause.to_string() }
}

fn answered(status: u16, body: &str) -> Result<HttpResponse, String> {
    Ok(HttpResponse { status, body: body.as_bytes().to_vec() })
}

/// Fetches a feed as a caller does, with the response given.
fn feed_from_response(response: Result<HttpResponse, String>) -> Result<Feed, FeedError> {
    let body = feed_body(response)?;
    feed_from_parse(match feed_rs::parser::parse(body.as_slice()) {
        Ok(document) => Ok(Feed {
            entries: document
                .entries
                .into_iter()
                .map(|entry| Entry {
                    links: entry.links.into_iter().map(|link| link.href).collect(),
                })
                .collect(),
        }),
        Err(error) => Err(error.to_string()),
    })
}

/// Runs the loop of a caller: `fetched` answers the feed fetch, and
/// `respond` stands for the task bound to a URL.
fn drive(
    feed_url: &str,
    fetched: Result<Feed, FeedError>,
    respond: &dyn Fn(usize, &str) -> Result<FetchOutcome, String>,
) -> (Orchestrator, Vec<Action>) {
    let mut run = Orchestrator::new(feed_url.to_string());
    let mut fetched = Some(fetched);
    let mut dispatched: Vec<FetchTask> = Vec::new();
    let mut actions: Vec<Action> = Vec::new();
    let mut event = Event::Start;
    for _ in 0..10_000 {
        let action = run.step(event);
        event = match &action {
            Action::FetchFeed { url } => {
                assert_eq!(url, feed_url);
                Event::FeedFetched(fetched.take().expect("the feed is fetched once"))
            }
            Action::Dispatch { tasks } => {
                assert!(dispatched.is_empty());
                dispatched = tasks.clone();
                Event::Dispatched
            }
            Action::Join { index } => {
                Event::Joined(respond(*index, &dispatched[*index].url))
            }
            Action::Finish => {
                actions.push(action);
                return (run, actions);
            }
            Action::Ignore => panic!("an event of the loop was ignored"),
        };
        actions.push(action);
    }
    panic!("the run did not end");
}

#[test]
fn new_run_is_idle_and_empty() {
    let run = Orchestrator::new("http://feed/".to_string());
    assert_eq!(run.phase(), Phase::Idle);
    assert!(!run.is_done());
    assert_eq!(run.feed_url(), "http://feed/");
    assert!(run.tasks().is_empty());
    assert!(run.report().is_empty());
    assert_eq!(run.fatal(), &None);
}

#[test]
fn start_asks_for_the_feed() {
    let mut run = Orchestrator::new("http://feed/".to_string());
    let action = run.step(Event::Start);
    assert_eq!(action, Action::FetchFeed { url: "http://feed/".to_string() });
    assert_eq!(run.phase(), Phase::FeedFetching);
}

#[test]
fn fetched_feed_is_dispatched_in_document_order() {
    let mut run = Orchestrator::new("http://feed/".to_string());
    run.step(Event::Start);
    let action = run.step(Event::FeedFetched(Ok(feed(&["http://a/1", "http://a/2"]))));
    assert_eq!(
        action,
        Action::Dispatch { tasks: vec![task("http://a/1"), task("http://a/2")] }
    );
    assert_eq!(run.phase(), Phase::Dispatching);
    assert_eq!(run.tasks(), &vec![task("http://a/1"), task("http://a/2")]);
    assert!(run.report().is_empty());
}

#[test]
fn tasks_are_joined_in_dispatch_order() {
    let mut run = Orchestrator::new("http://feed/".to_string());
    run.step(Event::Start);
    run.step(Event::FeedFetched(Ok(feed(&["http://a/1", "http://a/2", "http://a/3"]))));
    assert_eq!(run.step(Event::Dispatched), Action::Join { index: 0 });
    assert_eq!(run.phase(), Phase::Awaiting);
    assert_eq!(run.step(Event::Joined(Ok(success("http://a/1", 1)))), Action::Join { index: 1 });
    assert_eq!(run.phase(), Phase::Awaiting);
    assert_eq!(run.step(Event::Joined(Ok(success("http://a/2", 2)))), Action::Join { index: 2 });
    assert_eq!(run.phase(), Phase::Awaiting);
    assert_eq!(run.step(Event::Joined(Ok(success("http://a/3", 3)))), Action::Finish);
    assert_eq!(run.phase(), Phase::Done);
    assert!(run.is_done());
    assert_eq!(
        run.report(),
        &vec![success("http://a/1", 1), success("http://a/2", 2), success("http://a/3", 3)]
    );
    assert_eq!(run.fatal(), &None);
}

#[test]
fn two_entries_one_success_one_refused_connection() {
    let body = r#"<feed xmlns="http://www.w3.org/2005/Atom">
      <title>t</title><id>urn:f</id>
      <entry><id>urn:1</id><title>one</title><link href="http://a/1"/></entry>
      <entry><id>urn:2</id><title>two</title><link href="http://a/2"/></entry>
    </feed>"#;
    let fetched = feed_from_response(answered(200, body));
    let (run, actions) = drive("http://feed/", fetched, &|_, url| {
        let response = if url == "http://a/1" {
            answered(200, "hello")
        } else {
            Err("connection refused".to_string())
        };
        Ok(outcome_from_response(url.to_string(), response))
    });
    assert_eq!(
        run.report(),
        &vec![
            success("http://a/1", 5),
            application_error("http://a/2", "connection refused"),
        ]
    );
    assert_eq!(run.fatal(), &None);
    assert!(run.is_done());
    assert_eq!(
        actions,
        vec![
            Action::FetchFeed { url: "http://feed/".to_string() },
            Action::Dispatch { tasks: vec![task("http://a/1"), task("http://a/2")] },
            Action::Join { index: 0 },
            Action::Join { index: 1 },
            Action::Finish,
        ]
    );
}

#[test]
fn feed_status_404_ends_the_run_with_one_transport_error() {
    let fetched = feed_from_response(answered(404, "gone"));
    let (run, actions) = drive("http://feed/", fetched, &|_, _| {
        panic!("no article is fetched when the feed fails")
    });
    assert!(run.is_done());
    assert!(run.report().is_empty());
    assert!(run.tasks().is_empty());
    assert_eq!(
        run.fatal(),
        &Some(FeedError::TransportError { cause: "HTTP status 404".to_string() })
    );
    assert_eq!(
        actions,
        vec![Action::FetchFeed { url: "http://feed/".to_string() }, Action::Finish]
    );
}

#[test]
fn unrecognized_document_ends_the_run_with_one_parse_error() {
    let body = r#"<?xml version="1.0"?><catalog><book id="1"/></catalog>"#;
    let fetched = feed_from_response(answered(200, body));
    let (run, actions) = drive("http://feed/", fetched, &|_, _| {
        panic!("no article is fetched when the feed fails")
    });
    assert!(run.is_done());
    assert!(run.report().is_empty());
    assert!(run.tasks().is_empty());
    assert!(matches!(run.fatal(), Some(FeedError::ParseError { .. })));
    assert_eq!(actions.len(), 2);
    assert_eq!(actions[1], Action::Finish);
}

#[test]
fn feed_transport_failure_ends_the_run() {
    let fetched = feed_from_response(Err("connection reset".to_string()));
    let (run, _) = drive("http://feed/", fetched, &|_, _| panic!("nothing to join"));
    assert!(run.is_done());
    assert!(run.report().is_empty());
    assert_eq!(
        run.fatal(),
        &Some(FeedError::TransportError { cause: "connection reset".to_string() })
    );
}

#[test]
fn second_of_three_failing_leaves_the_others_reported() {
    let fetched = Ok(feed(&["http://a/1", "http://a/2", "http://a/3"]));
    let (run, _) = drive("http://feed/", fetched, &|index, url| {
        let response = if index == 1 { answered(500, "") } else { answered(200, "body") };
        Ok(outcome_from_response(url.to_string(), response))
    });
    assert_eq!(
        run.report(),
        &vec![
            success("http://a/1", 4),
            application_error("http://a/2", "HTTP status 500"),
            success("http://a/3", 4),
        ]
    );
}

#[test]
fn task_that_did_not_complete_is_a_task_failure() {
    let fetched = Ok(feed(&["http://a/1", "http://a/2"]));
    let (run, _) = drive("http://feed/", fetched, &|index, url| {
        if index == 0 {
            Err("task 7 panicked".to_string())
        } else {
            Ok(success(url, 9))
        }
    });
    assert_eq!(run.report(), &vec![task_failure("task 7 panicked"), success("http://a/2", 9)]);
    assert!(run.is_done());
}

#[test]
fn every_task_failing_still_reports_every_outcome() {
    let urls = ["http://a/1", "http://a/2", "http://a/3", "http://a/4"];
    let (run, _) = drive("http://feed/", Ok(feed(&urls)), &|index, url| {
        if index % 2 == 0 {
            Err("cancelled".to_string())
        } else {
            Ok(application_error(url, "timeout"))
        }
    });
    assert_eq!(
        run.report(),
        &vec![
            task_failure("cancelled"),
            application_error("http://a/2", "timeout"),
            task_failure("cancelled"),
            application_error("http://a/4", "timeout"),
        ]
    );
    assert_eq!(run.report().len(), run.tasks().len());
}

#[test]
fn outcome_count_equals_linked_entries_under_any_mix() {
    let entries = vec![
        entry(&["http://a/1"]),
        entry(&[]),
        entry(&["http://a/2", "http://a/ignored"]),
        entry(&[]),
        entry(&["http://a/3"]),
    ];
    for mix in 0..27usize {
        let (run, actions) =
            drive("http://feed/", Ok(Feed { entries: entries.clone() }), &|index, url| {
                match (mix / 3usize.pow(index as u32)) % 3 {
                    0 => Ok(success(url, index)),
                    1 => Ok(application_error(url, "refused")),
                    _ => Err("aborted".to_string()),
                }
            });
        assert_eq!(
            run.tasks(),
            &vec![task("http://a/1"), task("http://a/2"), task("http://a/3")]
        );
        assert_eq!(run.report().len(), 3);
        assert_eq!(actions.len(), 6);
        assert!(run.is_done());
        assert_eq!(run.fatal(), &None);
    }
}

#[test]
fn report_does_not_depend_on_the_other_tasks() {
    let urls = ["http://a/1", "http://a/2", "http://a/3"];
    let (calm, _) = drive("http://feed/", Ok(feed(&urls)), &|index, url| Ok(success(url, index)));
    let (rough, _) = drive("http://feed/", Ok(feed(&urls)), &|index, url| {
        if index == 1 {
            Ok(success(url, index))
        } else {
            Err("killed".to_string())
        }
    });
    assert_eq!(calm.report()[1], rough.report()[1]);
    assert_eq!(rough.report()[1], success("http://a/2", 1));
    assert_eq!(rough.report().len(), 3);
}

#[test]
fn feed_without_linked_entries_ends_after_dispatch() {
    let fetched = Ok(Feed { entries: vec![entry(&[]), entry(&[])] });
    let (run, actions) = drive("http://feed/", fetched, &|_, _| panic!("nothing to join"));
    assert!(run.is_done());
    assert!(run.tasks().is_empty());
    assert!(run.report().is_empty());
    assert_eq!(run.fatal(), &None);
    assert_eq!(
        actions,
        vec![
            Action::FetchFeed { url: "http://feed/".to_string() },
            Action::Dispatch { tasks: vec![] },
            Action::Finish,
        ]
    );
}

#[test]
fn events_that_do_not_fit_the_phase_are_ignored() {
    let mut run = Orchestrator::new("http://feed/".to_string());
    assert_eq!(run.step(Event::Dispatched), Action::Ignore);
    assert_eq!(run.step(Event::Joined(Ok(success("http://a/1", 1)))), Action::Ignore);
    assert_eq!(run.step(Event::FeedFetched(Ok(feed(&["http://a/1"])))), Action::Ignore);
    assert_eq!(run.phase(), Phase::Idle);
    assert!(run.tasks().is_empty());

    run.step(Event::Start);
    assert_eq!(run.step(Event::Start), Action::Ignore);
    assert_eq!(run.step(Event::Dispatched), Action::Ignore);
    assert_eq!(run.step(Event::Joined(Err("lost".to_string()))), Action::Ignore);
    assert_eq!(run.phase(), Phase::FeedFetching);
    assert!(run.report().is_empty());

    run.step(Event::FeedFetched(Ok(feed(&["http://a/1"]))));
    assert_eq!(run.step(Event::Start), Action::Ignore);
    assert_eq!(run.step(Event::FeedFetched(Ok(feed(&["http://b/1"])))), Action::Ignore);
    assert_eq!(run.step(Event::Joined(Ok(success("http://a/1", 1)))), Action::Ignore);
    assert_eq!(run.phase(), Phase::Dispatching);
    assert_eq!(run.tasks(), &vec![task("http://a/1")]);
    assert!(run.report().is_empty());

    run.step(Event::Dispatched);
    assert_eq!(run.step(Event::Start), Action::Ignore);
    assert_eq!(run.step(Event::Dispatched), Action::Ignore);
    assert_eq!(
        run.step(Event::FeedFetched(Err(FeedError::ParseError { cause: "late".to_string() }))),
        Action::Ignore
    );
    assert_eq!(run.phase(), Phase::Awaiting);
    assert_eq!(run.fatal(), &None);
}

#[test]
fn done_is_terminal() {
    let (mut run, _) =
        drive("http://feed/", Ok(feed(&["http://a/1"])), &|_, url| Ok(success(url, 3)));
    assert!(run.is_done());
    assert_eq!(run.step(Event::Start), Action::Ignore);
    assert_eq!(run.step(Event::FeedFetched(Ok(feed(&["http://b/1"])))), Action::Ignore);
    assert_eq!(run.step(Event::Dispatched), Action::Ignore);
    assert_eq!(run.step(Event::Joined(Ok(success("http://b/1", 1)))), Action::Ignore);
    assert_eq!(run.step(Event::Joined(Err("late".to_string()))), Action::Ignore);
    assert_eq!(run.phase(), Phase::Done);
    assert_eq!(run.tasks(), &vec![task("http://a/1")]);
    assert_eq!(run.report(), &vec![success("http://a/1", 3)]);
    assert_eq!(run.fatal(), &None);
}

#[test]
fn failed_run_stays_failed() {
    let mut run = Orchestrator::new("http://feed/".to_string());
    run.step(Event::Start);
    let error = FeedError::ParseError { cause: "no root element".to_string() };
    assert_eq!(run.step(Event::FeedFetched(Err(error.clone()))), Action::Finish);
    assert_eq!(run.step(Event::FeedFetched(Ok(feed(&["http://a/1"])))), Action::Ignore);
    assert_eq!(run.step(Event::Dispatched), Action::Ignore);
    assert_eq!(run.step(Event::Joined(Ok(success("http://a/1", 1)))), Action::Ignore);
    assert!(run.is_done());
    assert_eq!(run.fatal(), &Some(error));
    assert!(run.tasks().is_empty());
    assert!(run.report().is_empty());
}

#[test]
fn joined_outcome_is_recorded_as_handed_back() {
    assert_eq!(classify_join(Ok(success("http://a/1", 5))), success("http://a/1", 5));
    assert_eq!(
        classify_join(Ok(application_error("http://a/2", "refused"))),
        application_error("http://a/2", "refused")
    );
    assert_eq!(classify_join(Ok(task_failure("inner"))), task_failure("inner"));
}

#[test]
fn join_failure_is_a_task_failure() {
    assert_eq!(classify_join(Err("task was cancelled".to_string())), task_failure("task was cancelled"));
    assert_eq!(classify_join(Err(String::new())), task_failure(""));
}

#[test]
fn large_feed_reports_every_task() {
    let urls: Vec<String> = (0..500).map(|i| format!("http://a/{}", i)).collect();
    let entries: Vec<Entry> = urls.iter().map(|url| Entry { links: vec![url.clone()] }).collect();
    let (run, actions) = drive("http://feed/", Ok(Feed { entries }), &|index, url| {
        if index % 7 == 0 {
            Err("aborted".to_string())
        } else {
            Ok(success(url, index))
        }
    });
    assert_eq!(run.report().len(), 500);
    assert_eq!(actions.len(), 503);
    for (index, outcome) in run.report().iter().enumerate() {
        if index % 7 == 0 {
            assert_eq!(outcome, &task_failure("aborted"));
        } else {
            assert_eq!(outcome, &success(&urls[index], index));
        }
    }
}
