//! A feed-aggregation worker, reduced to its decisions.
//!
//! A run fetches one feed, derives one fetch task per entry that carries a
//! link, and joins the outcome of every task into a report in dispatch
//! order.  A failure of the feed itself ends the run; a failure of one
//! article is recorded as that article's outcome and touches no other.
//!
//! The library performs no I/O and runs no parser.  The caller performs the
//! HTTP requests, parses the feed document and runs the tasks, and hands the
//! library plain values; the library decides what they mean and what is to
//! be done next.
//!
//! - `http`: what a GET hands back, and which status codes count as success.
//! - `feed`: the feed fetcher's decisions.
//! - `article`: the article fetcher's decision.
//! - `plan`: from a feed to its fetch tasks.
//! - `orchestrator`: the state machine of a run.
//! - `report`: the lines in which a run is reported.
//! - `text`: decimal numerals.
//! - `laws`: what holds of every run.

pub mod article;
pub mod feed;
pub mod http;
pub mod laws;
pub mod orchestrator;
pub mod plan;
pub mod report;
pub mod text;
