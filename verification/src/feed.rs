//! The feed fetcher: from the response to the GET on the feed URL to the
//! feed's entries, or to the error that ends the run.
//!
//! Fetching a feed takes two pieces of outside work, the request and the
//! parsing of the body, and two decisions.  The caller makes the request and
//! asks `feed_body` what to parse; it runs the parser on those bytes and
//! asks `feed_from_parse` what came of it.

use crate::http::{
    is_success, is_success_status, response_view, status_failure, status_failure_text,
    HttpResponse, ResponseView,
};
use vstd::prelude::*;

verus! {

/// One entry of a feed: the targets of its links, in document order.
#[derive(Debug, Clone, PartialEq, Eq)]
pub struct Entry {
    pub links: Vec<String>,
}

impl View for Entry {
    type V = Seq<Seq<char>>;

    open spec fn view(&self) -> Seq<Seq<char>> {
        self.links.deep_view()
    }
}

impl DeepView for Entry {
    type V = Seq<Seq<char>>;

    open spec fn deep_view(&self) -> Seq<Seq<char>> {
        self@
    }
}

/// A parsed feed: its entries, in document order.
#[derive(Debug, Clone, PartialEq, Eq)]
pub struct Feed {
    pub entries: Vec<Entry>,
}

impl View for Feed {
    type V = Seq<Seq<Seq<char>>>;

    open spec fn view(&self) -> Seq<Seq<Seq<char>>> {
        self.entries.deep_view()
    }
}

/// Why no feed could be had.  Either error ends the run.
#[derive(Debug, Clone, PartialEq, Eq)]
pub enum FeedError {
    /// The GET failed, or was answered with a status outside the success class.
    TransportError { cause: String },
    /// Bytes were retrieved, but they are no feed document.
    ParseError { cause: String },
}

/// The model of a `FeedError`.
pub enum FeedErrorView {
    TransportError { cause: Seq<char> },
    ParseError { cause: Seq<char> },
}

impl View for FeedError {
    type V = FeedErrorView;

    open spec fn view(&self) -> FeedErrorView {
        match self {
            FeedError::TransportError { cause } => FeedErrorView::TransportError { cause: cause@ },
            FeedError::ParseError { cause } => FeedErrorView::ParseError { cause: cause@ },
        }
    }
}

/// The model of what the feed fetcher hands on.
pub open spec fn fetched_view(fetched: Result<Feed, FeedError>) -> Result<
    Seq<Seq<Seq<char>>>,
    FeedErrorView,
> {
    match fetched {
        Ok(feed) => Ok(feed@),
        Err(error) => Err(error@),
    }
}

/// What the response to the GET on the feed URL amounts to: the bytes to
/// parse, where the request was answered with a status in the success
/// class; else a `TransportError`, with the failure's description or with
/// the words that name the status.
pub open spec fn accepted_body(response: Result<ResponseView, Seq<char>>) -> Result<
    Seq<u8>,
    FeedErrorView,
> {
    match response {
        Err(cause) => Err(FeedErrorView::TransportError { cause }),
        Ok(answer) => if is_success(answer.status) {
            Ok(answer.body)
        } else {
            Err(FeedErrorView::TransportError { cause: status_failure_text(answer.status) })
        },
    }
}

/// What the parser's answer amounts to: the feed as it was parsed, or a
/// `ParseError` with the parser's description.
pub open spec fn parse_result(parsed: Result<Seq<Seq<Seq<char>>>, Seq<char>>) -> Result<
    Seq<Seq<Seq<char>>>,
    FeedErrorView,
> {
    match parsed {
        Ok(entries) => Ok(entries),
        Err(cause) => Err(FeedErrorView::ParseError { cause }),
    }
}

/// What fetching a feed comes to, for a response and a parser: the parser
/// runs on the accepted body and on nothing else.
pub open spec fn feed_fetch(
    response: Result<ResponseView, Seq<char>>,
    parser: spec_fn(Seq<u8>) -> Result<Seq<Seq<Seq<char>>>, Seq<char>>,
) -> Result<Seq<Seq<Seq<char>>>, FeedErrorView> {
    match accepted_body(response) {
        Ok(bytes) => parse_result(parser(bytes)),
        Err(error) => Err(error),
    }
}

/// First half of the feed fetcher: takes the response to the GET on the
/// feed URL and hands back the bytes to parse, or the error that ends the
/// run.  Nothing is parsed where the request failed or was answered with a
/// status outside the success class.
pub fn feed_body(response: Result<HttpResponse, String>) -> (body: Result<Vec<u8>, FeedError>)
    ensures
        match accepted_body(response_view(response)) {
            Ok(bytes) => body matches Ok(accepted) && accepted@ == bytes,
            Err(failure) => body matches Err(error) && error@ == failure,
        },
{
    match response {
        Err(cause) => Err(FeedError::TransportError { cause }),
        Ok(answer) => {
            if is_success_status(answer.status) {
                Ok(answer.body)
            } else {
                Err(FeedError::TransportError { cause: status_failure(answer.status) })
            }
        },
    }
}

/// Second half of the feed fetcher: takes what the parser made of the
/// bytes, the feed or the description of its failure, and hands back the
/// feed, whole and with its entries in the order given, or a `ParseError`.
/// No partial feed comes out of a failure.
pub fn feed_from_parse(parsed: Result<Feed, String>) -> (fetched: Result<Feed, FeedError>)
    ensures
        fetched_view(fetched) == parse_result(
            match parsed {
                Ok(feed) => Ok(feed@),
                Err(cause) => Err(cause@),
            },
        ),
{
    match parsed {
        Ok(feed) => Ok(feed),
        Err(cause) => Err(FeedError::ParseError { cause }),
    }
}

} // verus!
