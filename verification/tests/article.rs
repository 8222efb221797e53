use feed_fetcher::article::{outcome_from_response, FetchOutcome};
use feed_fetcher::http::{is_success_status, status_failure, HttpResponse};

fn answered(status: u16, body: &[u8]) -> Result<HttpResponse, String> {
    Ok(HttpResponse { status, body: body.to_vec() })
}

#[test]
fn success_size_is_the_body_length() {
    let outcome = outcome_from_response("http://a/1".to_string(), answered(200, b"hello"));
    assert_eq!(outcome, FetchOutcome::Success { url: "http://a/1".to_string(), byte_size: 5 });
}

#[test]
fn success_with_empty_body_has_size_zero() {
    let outcome = outcome_from_response("http://a/empty".to_string(), answered(200, b""));
    assert_eq!(outcome, FetchOutcome::Success { url: "http://a/empty".to_string(), byte_size: 0 });
}

#[test]
fn success_size_counts_bytes_not_characters() {
    let body = "h\u{e9}llo \u{4e16}\u{754c}".as_bytes();
    assert_eq!(body.len(), 13);
    let outcome = outcome_from_response("http://a/utf8".to_string(), answered(200, body));
    assert_eq!(outcome, FetchOutcome::Success { url: "http://a/utf8".to_string(), byte_size: 13 });
}

#[test]
fn success_size_of_a_large_body() {
    let body = vec![0u8; 100_000];
    let outcome = outcome_from_response("http://a/big".to_string(), answered(204, &body));
    assert_eq!(
        outcome,
        FetchOutcome::Success { url: "http://a/big".to_string(), byte_size: 100_000 }
    );
}

#[test]
fn status_500_is_an_application_error() {
    let outcome = outcome_from_response("http://a/2".to_string(), answered(500, b"oops"));
    assert_eq!(
        outcome,
        FetchOutcome::ApplicationError {
            url: "http://a/2".to_string(),
            cause: "HTTP status 500".to_string()
        }
    );
}

#[test]
fn refused_connection_is_an_application_error() {
    let outcome =
        outcome_from_response("http://a/2".to_string(), Err("connection refused".to_string()));
    assert_eq!(
        outcome,
        FetchOutcome::ApplicationError {
            url: "http://a/2".to_string(),
            cause: "connection refused".to_string()
        }
    );
}

#[test]
fn article_status_at_the_edges_of_the_success_class() {
    let url = "http://a/edge";
    assert!(matches!(
        outcome_from_response(url.to_string(), answered(199, b"x")),
        FetchOutcome::ApplicationError { .. }
    ));
    assert!(matches!(
        outcome_from_response(url.to_string(), answered(200, b"x")),
        FetchOutcome::Success { byte_size: 1, .. }
    ));
    assert!(matches!(
        outcome_from_response(url.to_string(), answered(299, b"x")),
        FetchOutcome::Success { byte_size: 1, .. }
    ));
    assert!(matches!(
        outcome_from_response(url.to_string(), answered(300, b"x")),
        FetchOutcome::ApplicationError { .. }
    ));
}

#[test]
fn fetching_never_yields_a_task_failure() {
    let responses = vec![
        answered(200, b"ok"),
        answered(404, b""),
        answered(0, b""),
        answered(65535, b""),
        Err(String::new()),
        Err("timeout".to_string()),
    ];
    for response in responses {
        let outcome = outcome_from_response("http://a/x".to_string(), response);
        assert!(!matches!(outcome, FetchOutcome::TaskFailure { .. }));
    }
}

#[test]
fn success_class_is_200_to_299() {
    for status in 0..=u16::MAX {
        assert_eq!(is_success_status(status), (200..=299).contains(&status));
    }
}

#[test]
fn status_failure_names_the_status() {
    assert_eq!(status_failure(404), "HTTP status 404");
    assert_eq!(status_failure(0), "HTTP status 0");
    assert_eq!(status_failure(65535), "HTTP status 65535");
}

#[test]
fn preview_shows_at_most_200_bytes() {
    let short = HttpResponse { status: 200, body: vec![1u8; 17] };
    let exact = HttpResponse { status: 200, body: vec![1u8; 200] };
    let long = HttpResponse { status: 200, body: vec![1u8; 201] };
    let empty = HttpResponse { status: 200, body: vec![] };
    assert_eq!(short.preview_len(), 17);
    assert_eq!(exact.preview_len(), 200);
    assert_eq!(long.preview_len(), 200);
    assert_eq!(empty.preview_len(), 0);
}
