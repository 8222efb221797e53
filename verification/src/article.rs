//! The article fetcher: from the response to the GET on one article URL to
//! that article's outcome.

use crate::http::{
    is_success, is_success_status, response_view, status_failure, status_failure_text,
    HttpResponse, ResponseView,
};
use vstd::prelude::*;

verus! {

/// The result of one fetch task.
#[derive(Debug, Clone, PartialEq, Eq)]
pub enum FetchOutcome {
    /// The article was retrieved; `byte_size` is the length of its body in bytes.
    Success { url: String, byte_size: usize },
    /// The request was made and failed.
    ApplicationError { url: String, cause: String },
    /// The unit of work that carried the fetch did not run to completion.
    TaskFailure { cause: String },
}

/// The model of a `FetchOutcome`.
pub enum OutcomeView {
    Success { url: Seq<char>, byte_size: nat },
    ApplicationError { url: Seq<char>, cause: Seq<char> },
    TaskFailure { cause: Seq<char> },
}

impl View for FetchOutcome {
    type V = OutcomeView;

    open spec fn view(&self) -> OutcomeView {
        match self {
            FetchOutcome::Success { url, byte_size } => OutcomeView::Success {
                url: url@,
                byte_size: *byte_size as nat,
            },
            FetchOutcome::ApplicationError { url, cause } => OutcomeView::ApplicationError {
                url: url@,
                cause: cause@,
            },
            FetchOutcome::TaskFailure { cause } => OutcomeView::TaskFailure { cause: cause@ },
        }
    }
}

impl DeepView for FetchOutcome {
    type V = OutcomeView;

    open spec fn deep_view(&self) -> OutcomeView {
        self@
    }
}

/// The outcomes of one run, one for each dispatched task, in dispatch order.
pub type Report = Vec<FetchOutcome>;

/// The outcome that a response stands for.
///
/// A response in the success class is a `Success` whose size is the length
/// of the body.  A failed request, and a response outside the success class,
/// are an `ApplicationError` for the same URL.
pub open spec fn article_outcome(url: Seq<char>, response: Result<ResponseView, Seq<char>>) -> OutcomeView {
    match response {
        Ok(answer) => if is_success(answer.status) {
            OutcomeView::Success { url, byte_size: answer.body.len() }
        } else {
            OutcomeView::ApplicationError { url, cause: status_failure_text(answer.status) }
        },
        Err(cause) => OutcomeView::ApplicationError { url, cause },
    }
}

/// Reduces the response to the GET on `url` to the article's outcome.
///
/// Every failure is captured in the outcome; a single attempt is final.
pub fn outcome_from_response(url: String, response: Result<HttpResponse, String>) -> (outcome:
    FetchOutcome)
    ensures
        outcome@ == article_outcome(url@, response_view(response)),
{
    match response {
        Ok(answer) => {
            if is_success_status(answer.status) {
                FetchOutcome::Success { url, byte_size: answer.body.len() }
            } else {
                FetchOutcome::ApplicationError { url, cause: status_failure(answer.status) }
            }
        },
        Err(cause) => FetchOutcome::ApplicationError { url, cause },
    }
}

} // verus!
