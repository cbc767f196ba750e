//! What is sent to the backend and what comes back, as plain values.

use crate::error::{ErrorKind, Failure, ServiceError};
use crate::text::{
    contains, decimal, lemma_contains_middle, push_decimal, starts_with,
};
use crate::views::result_view;
use vstd::prelude::*;

verus! {

/// The two operations of the service.
#[derive(Clone, Copy, Debug, PartialEq, Eq, Structural)]
pub enum Operation {
    Search,
    Providers,
}

/// How a call is made.
#[derive(Clone, Copy, Debug, PartialEq, Eq, Structural)]
pub enum HttpMethod {
    Get,
    Post,
}

/// One call to the backend: where it goes and what it carries.
#[derive(Clone, Debug, PartialEq, Eq)]
pub struct BackendCall {
    pub method: HttpMethod,
    pub url: String,
    /// A JSON text to send, if any.
    pub body: Option<String>,
}

/// Mathematical model of a [`BackendCall`].
pub ghost struct BackendCallView {
    pub method: HttpMethod,
    pub url: Seq<char>,
    pub body: Option<Seq<char>>,
}

impl View for BackendCall {
    type V = BackendCallView;

    open spec fn view(&self) -> BackendCallView {
        BackendCallView { method: self.method, url: self.url@, body: self.body.deep_view() }
    }
}

impl DeepView for BackendCall {
    type V = BackendCallView;

    open spec fn deep_view(&self) -> BackendCallView {
        self@
    }
}

/// How a call to the backend ended.
#[derive(Debug, PartialEq, Eq)]
pub enum HttpOutcome {
    /// No response came: the backend could not be reached, or the wait ran out.
    Unreachable { description: String },
    /// A response came, with this status. `body` is its text, or why the
    /// text could not be read.
    Response { status: u16, body: Result<String, String> },
}

/// Mathematical model of an [`HttpOutcome`].
pub ghost enum HttpOutcomeView {
    Unreachable { description: Seq<char> },
    Response { status: u16, body: Result<Seq<char>, Seq<char>> },
}

impl View for HttpOutcome {
    type V = HttpOutcomeView;

    open spec fn view(&self) -> HttpOutcomeView {
        match self {
            HttpOutcome::Unreachable { description } => HttpOutcomeView::Unreachable {
                description: description@,
            },
            HttpOutcome::Response { status, body } => HttpOutcomeView::Response {
                status: *status,
                body: result_view(*body),
            },
        }
    }
}

impl DeepView for HttpOutcome {
    type V = HttpOutcomeView;

    open spec fn deep_view(&self) -> HttpOutcomeView {
        self@
    }
}

/// A status from 200 to 299.
pub open spec fn spec_is_success(status: u16) -> bool {
    200 <= status < 300
}

/// Whether a status is one from 200 to 299.
#[verifier::when_used_as_spec(spec_is_success)]
pub fn is_success(status: u16) -> (success: bool)
    ensures
        success == spec_is_success(status),
{
    200 <= status && status < 300
}

/// How a failure to reach the backend is introduced.
pub open spec fn request_failed(operation: Operation) -> Seq<char> {
    match operation {
        Operation::Search => "Search request failed: "@,
        Operation::Providers => "Providers request failed: "@,
    }
}

/// How a status outside 200-299 is introduced.
pub open spec fn api_error(operation: Operation) -> Seq<char> {
    match operation {
        Operation::Search => "Perplexica search API error (status "@,
        Operation::Providers => "Perplexica providers API error (status "@,
    }
}

/// How a response of the wrong shape is introduced.
pub open spec fn parse_failed(operation: Operation) -> Seq<char> {
    match operation {
        Operation::Search => "Failed to parse search response as JSON: "@,
        Operation::Providers => "Failed to parse providers response as JSON: "@,
    }
}

/// What stands for the body of a response that could not be read.
pub open spec fn unread_body() -> Seq<char> {
    "Failed to read error response"@
}

/// The failure of a call that got no response.
pub open spec fn no_response(operation: Operation, description: Seq<char>) -> Failure {
    Failure {
        kind: ErrorKind::UpstreamUnreachable,
        message: request_failed(operation) + description,
    }
}

/// The failure of a response that does not have the expected shape.
pub open spec fn malformed(operation: Operation, description: Seq<char>) -> Failure {
    Failure { kind: ErrorKind::MalformedResponse, message: parse_failed(operation) + description }
}

/// How a status is shown: by its status line where it has one, else by its number.
pub open spec fn status_label(status: u16, line: Option<Seq<char>>) -> Seq<char> {
    match line {
        Some(line) => line,
        None => decimal(status as nat),
    }
}

/// The failure of a response with a status outside 200-299: it shows the
/// status and the body as it came.
pub open spec fn upstream_error(
    operation: Operation,
    status: u16,
    line: Option<Seq<char>>,
    body: Result<Seq<char>, Seq<char>>,
) -> Failure {
    Failure {
        kind: ErrorKind::UpstreamError,
        message: api_error(operation) + status_label(status, line) + "): "@ + match body {
            Ok(text) => text,
            Err(_) => unread_body(),
        },
    }
}

/// The body of a response with a status from 200 to 299, or the failure that
/// the outcome amounts to. `line` is the status line of the response's status.
pub open spec fn response_body(
    operation: Operation,
    outcome: HttpOutcomeView,
    line: Option<Seq<char>>,
) -> Result<Seq<char>, Failure> {
    match outcome {
        HttpOutcomeView::Unreachable { description } => Err(no_response(operation, description)),
        HttpOutcomeView::Response { status, body } => if !spec_is_success(status) {
            Err(upstream_error(operation, status, line, body))
        } else {
            match body {
                Ok(text) => Ok(text),
                Err(description) => Err(malformed(operation, description)),
            }
        },
    }
}

/// The failure of a result, if it is one.
pub open spec fn failure_of<T>(result: Result<T, Failure>) -> Option<Failure> {
    match result {
        Ok(_) => None,
        Err(failure) => Some(failure),
    }
}

/// Where the outcome is a response with a status outside 200-299, `failure`
/// is an upstream error whose description shows the number of the status, and
/// the body where it could be read.
pub open spec fn shows_upstream_error(outcome: HttpOutcomeView, failure: Option<Failure>) -> bool {
    match outcome {
        HttpOutcomeView::Response { status, body } => !spec_is_success(status) ==> match failure {
            Some(failure) => {
                &&& failure.kind == ErrorKind::UpstreamError
                &&& contains(failure.message, decimal(status as nat))
                &&& match body {
                    Ok(text) => contains(failure.message, text),
                    Err(_) => true,
                }
            },
            None => false,
        },
        HttpOutcomeView::Unreachable { .. } => true,
    }
}

/// The status of a response; 0 where there is none.
pub open spec fn outcome_status(outcome: HttpOutcomeView) -> u16 {
    match outcome {
        HttpOutcomeView::Unreachable { .. } => 0,
        HttpOutcomeView::Response { status, .. } => status,
    }
}

/// The status line that `reqwest::StatusCode` prints for a status: its
/// number and its canonical reason. None where `reqwest` takes the number for
/// no status.
pub uninterp spec fn status_text(status: u16) -> Option<Seq<char>>;

/// Makes a `reqwest::StatusCode` of `status` with `from_u16` and prints it
/// with its `Display`. The contract gives the result the name [`status_text`]:
/// the same number always prints the same. It also says what the source of
/// that `Display` shows: the line begins with the number in decimal.
#[verifier::external_body]
fn status_line(status: u16) -> (line: Option<String>)
    ensures
        line.deep_view() == status_text(status),
        line matches Some(text) ==> starts_with(text@, decimal(status as nat)),
{
    match reqwest::StatusCode::from_u16(status) {
        Ok(code) => Some(code.to_string()),
        Err(_) => None,
    }
}

/// The failure of a status outside 200-299 shows the number of the status,
/// and the body where it could be read. `line` is a status line that begins
/// with that number, if there is one.
pub proof fn lemma_upstream_error_shows_status_and_body(
    operation: Operation,
    status: u16,
    line: Option<Seq<char>>,
    body: Result<Seq<char>, Seq<char>>,
)
    requires
        line matches Some(text) ==> starts_with(text, decimal(status as nat)),
    ensures
        upstream_error(operation, status, line, body).kind == ErrorKind::UpstreamError,
        contains(upstream_error(operation, status, line, body).message, decimal(status as nat)),
        body matches Ok(text) ==> contains(
            upstream_error(operation, status, line, body).message,
            text,
        ),
{
    let message = upstream_error(operation, status, line, body).message;
    let number = decimal(status as nat);
    let label = status_label(status, line);
    let tail = match body {
        Ok(text) => text,
        Err(_) => unread_body(),
    };
    let rest = label.subrange(number.len() as int, label.len() as int);
    assert(label == number + rest);
    lemma_contains_middle(api_error(operation), number, rest + "): "@ + tail);
    assert(message == api_error(operation) + number + (rest + "): "@ + tail));
    lemma_contains_middle(api_error(operation) + label + "): "@, tail, Seq::empty());
    assert(message == api_error(operation) + label + "): "@ + tail + Seq::<char>::empty());
}

fn request_failed_text(operation: Operation) -> (text: &'static str)
    ensures
        text@ == request_failed(operation),
{
    match operation {
        Operation::Search => "Search request failed: ",
        Operation::Providers => "Providers request failed: ",
    }
}

fn api_error_text(operation: Operation) -> (text: &'static str)
    ensures
        text@ == api_error(operation),
{
    match operation {
        Operation::Search => "Perplexica search API error (status ",
        Operation::Providers => "Perplexica providers API error (status ",
    }
}

fn parse_failed_text(operation: Operation) -> (text: &'static str)
    ensures
        text@ == parse_failed(operation),
{
    match operation {
        Operation::Search => "Failed to parse search response as JSON: ",
        Operation::Providers => "Failed to parse providers response as JSON: ",
    }
}

/// The failure of a call that got no response.
pub fn no_response_error(operation: Operation, description: &str) -> (error: ServiceError)
    ensures
        error@ == no_response(operation, description@),
{
    let mut message = String::from_str(request_failed_text(operation));
    message.append(description);
    ServiceError::new(ErrorKind::UpstreamUnreachable, message)
}

/// The failure of a response that does not have the expected shape.
pub fn malformed_error(operation: Operation, description: &str) -> (error: ServiceError)
    ensures
        error@ == malformed(operation, description@),
{
    let mut message = String::from_str(parse_failed_text(operation));
    message.append(description);
    ServiceError::new(ErrorKind::MalformedResponse, message)
}

/// The failure of a response with a status outside 200-299. `line` is the
/// status line of `status`, if it has one.
pub fn upstream_failure(
    operation: Operation,
    status: u16,
    line: Option<String>,
    body: &Result<String, String>,
) -> (error: ServiceError)
    ensures
        error@ == upstream_error(operation, status, line.deep_view(), result_view(*body)),
{
    let mut message = String::from_str(api_error_text(operation));
    match line {
        Some(line) => message.append(line.as_str()),
        None => push_decimal(&mut message, status as usize),
    }
    message.append("): ");
    match body {
        Ok(text) => message.append(text.as_str()),
        Err(_) => message.append("Failed to read error response"),
    }
    ServiceError::new(ErrorKind::UpstreamError, message)
}

/// The body of a response with a status from 200 to 299, or the failure that
/// the outcome amounts to.
pub fn successful_body(operation: Operation, outcome: HttpOutcome) -> (r: Result<
    String,
    ServiceError,
>)
    ensures
        result_view(r) == response_body(
            operation,
            outcome@,
            status_text(outcome_status(outcome@)),
        ),
        shows_upstream_error(outcome@, failure_of(result_view(r))),
{
    match outcome {
        HttpOutcome::Unreachable { description } => Err(
            no_response_error(operation, description.as_str()),
        ),
        HttpOutcome::Response { status, body } => {
            if !is_success(status) {
                let line = status_line(status);
                proof {
                    lemma_upstream_error_shows_status_and_body(
                        operation,
                        status,
                        line.deep_view(),
                        result_view(body),
                    );
                }
                Err(upstream_failure(operation, status, line, &body))
            } else {
                match body {
                    Ok(text) => Ok(text),
                    Err(description) => Err(malformed_error(operation, description.as_str())),
                }
            }
        },
    }
}

} // verus!
