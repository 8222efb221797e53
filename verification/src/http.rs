//! What an HTTP GET hands back, as plain values.

use crate::text::{decimal, decimal_digits};
use vstd::prelude::*;

verus! {

/// A response whose body was read in full.
#[derive(Debug, Clone, PartialEq, Eq)]
pub struct HttpResponse {
    /// The status code of the response.
    pub status: u16,
    /// The bytes of the body.
    pub body: Vec<u8>,
}

impl HttpResponse {
    /// The number of leading bytes of the body that a preview shows: all of
    /// a short body, the first 200 of a longer one.
    pub fn preview_len(&self) -> (shown: usize)
        ensures
            shown == if self.body@.len() <= 200 {
                self.body@.len()
            } else {
                200
            },
    {
        if self.body.len() <= 200 {
            self.body.len()
        } else {
            200
        }
    }
}

/// The model of an `HttpResponse`.
pub struct ResponseView {
    pub status: u16,
    pub body: Seq<u8>,
}

impl View for HttpResponse {
    type V = ResponseView;

    open spec fn view(&self) -> ResponseView {
        ResponseView { status: self.status, body: self.body@ }
    }
}

/// The model of what a GET hands back: the response, or the description of
/// the failure of the request.
pub open spec fn response_view(response: Result<HttpResponse, String>) -> Result<
    ResponseView,
    Seq<char>,
> {
    match response {
        Ok(answer) => Ok(answer@),
        Err(cause) => Err(cause@),
    }
}

/// A status code in the success class, 200 to 299.
pub open spec fn is_success(status: u16) -> bool {
    200 <= status <= 299
}

/// Tells whether a status code is in the success class.
pub fn is_success_status(status: u16) -> (ok: bool)
    ensures
        ok == is_success(status),
{
    200 <= status && status <= 299
}

/// What is reported as the cause when a response carries a status code
/// outside the success class: the words `HTTP status` and the code in decimal.
pub open spec fn status_failure_text(status: u16) -> Seq<char> {
    "HTTP status "@ + decimal_digits(status as nat)
}

/// Writes the cause that stands for a status code outside the success class.
pub fn status_failure(status: u16) -> (cause: String)
    ensures
        cause@ == status_failure_text(status),
{
    let mut cause = String::from_str("HTTP status ");
    let code = decimal(status as usize);
    cause.append(code.as_str());
    cause
}

} // verus!
