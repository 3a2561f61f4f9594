//! What to make of the provider's answer: its status first, then its body.

use crate::decode::{decode, decodes_to, DecodeFailure, Prices};
use crate::text::{decimal, decimal_of};
use vstd::prelude::*;

verus! {

/// The first of the statuses that report success.
pub const SUCCESS_FIRST: u16 = 200;

/// The last of the statuses that report success.
pub const SUCCESS_LAST: u16 = 299;

/// A status that ends the run: the answer's body is not looked at.
#[derive(Clone, Copy, Debug, PartialEq, Eq, Structural)]
pub struct UnexpectedStatus {
    pub status: u16,
}

/// What a body came to.
#[derive(Debug)]
pub enum Fetched {
    /// The prices that the body reports.
    Data(Prices),
    /// The body reports none that can be read; `diagnostic` says so and
    /// shows the body.
    NoData { failure: DecodeFailure, diagnostic: String },
}

/// Whether a status reports success: the body of such an answer is read.
pub open spec fn is_success(status: u16) -> bool {
    SUCCESS_FIRST <= status <= SUCCESS_LAST
}

/// The words that report a status that ends the run.
pub open spec fn status_message_of(status: u16) -> Seq<char> {
    "Uh oh! Something unexpected happened: "@ + decimal_of(status as nat)
}

/// The words for why a body yields nothing.
pub open spec fn reason_of(failure: DecodeFailure) -> Seq<char> {
    match failure {
        DecodeFailure::Syntax => "the body is not JSON:"@,
        DecodeFailure::Shape => "the body lacks a part of the prices:"@,
    }
}

/// The line that reports a body that yields nothing: the reason, then the
/// body as it came.
pub open spec fn diagnostic_of(failure: DecodeFailure, body: Seq<char>) -> Seq<char> {
    "FAILED TO PARSE! "@ + reason_of(failure) + " "@ + body
}

/// What reading the body `body` comes to.
pub open spec fn reads_as(body: Seq<char>, fetched: Fetched) -> bool {
    match fetched {
        Fetched::Data(prices) => decodes_to(body, Ok(prices)),
        Fetched::NoData { failure, diagnostic } => decodes_to(body, Err(failure)) && diagnostic@
            == diagnostic_of(failure, body),
    }
}

impl UnexpectedStatus {
    /// The words that report the status.
    pub fn message(&self) -> (message: String)
        ensures
            message@ == status_message_of(self.status),
    {
        let mut message: String = "Uh oh! Something unexpected happened: ".to_owned();
        let digits: String = decimal(self.status as usize);
        message.append(digits.as_str());
        message
    }
}

impl Fetched {
    /// Whether prices came.
    pub open spec fn has_data(self) -> bool {
        self is Data
    }

    /// The prices, if any came.
    pub fn data(&self) -> (found: Option<&Prices>)
        ensures
            match found {
                Some(prices) => *self == Fetched::Data(*prices),
                None => !self.has_data(),
            },
    {
        match self {
            Fetched::Data(prices) => Some(prices),
            Fetched::NoData { .. } => None,
        }
    }

    /// The line to log where no prices came.
    pub fn diagnostic(&self) -> (found: Option<&str>)
        ensures
            match found {
                Some(line) => self matches Fetched::NoData { diagnostic, .. } && line@
                    == diagnostic@,
                None => self.has_data(),
            },
    {
        match self {
            Fetched::Data(_) => None,
            Fetched::NoData { diagnostic, .. } => Some(diagnostic.as_str()),
        }
    }
}

/// Whether the body of an answer with this status is read: a status that
/// reports success lets it be; any other is handed back as the reason to
/// stop, and nothing is decoded.
pub fn check_status(status: u16) -> (checked: Result<(), UnexpectedStatus>)
    ensures
        checked is Ok <==> is_success(status),
        checked matches Err(unexpected) ==> unexpected.status == status,
{
    if SUCCESS_FIRST <= status && status <= SUCCESS_LAST {
        Ok(())
    } else {
        Err(UnexpectedStatus { status })
    }
}

/// The line that reports a body that yields nothing.
pub fn diagnostic_line(failure: DecodeFailure, body: &str) -> (line: String)
    ensures
        line@ == diagnostic_of(failure, body@),
{
    let mut line: String = "FAILED TO PARSE! ".to_owned();
    match failure {
        DecodeFailure::Syntax => line.append("the body is not JSON:"),
        DecodeFailure::Shape => line.append("the body lacks a part of the prices:"),
    }
    line.append(" ");
    line.append(body);
    line
}

/// Reads the body of an answer: the prices where it decodes, else no data
/// and the line that says so.
pub fn read_body(body: &str) -> (fetched: Fetched)
    ensures
        reads_as(body@, fetched),
{
    match decode(body) {
        Ok(prices) => Fetched::Data(prices),
        Err(failure) => {
            let diagnostic: String = diagnostic_line(failure, body);
            Fetched::NoData { failure, diagnostic }
        },
    }
}

/// The line that reports a failure ends with the body, unchanged.
pub proof fn lemma_diagnostic_shows_body(failure: DecodeFailure, body: Seq<char>)
    ensures
        diagnostic_of(failure, body).len() >= body.len(),
        diagnostic_of(failure, body).subrange(
            diagnostic_of(failure, body).len() - body.len(),
            diagnostic_of(failure, body).len() as int,
        ) == body,
{
    let line = diagnostic_of(failure, body);
    assert(line.subrange(line.len() - body.len(), line.len() as int) =~= body);
}

/// A body is read to exactly one of the two: prices, or no data. It is prices
/// exactly where the body is JSON of the expected shape.
pub proof fn lemma_data_or_nothing(body: Seq<char>, fetched: Fetched)
    requires
        reads_as(body, fetched),
    ensures
        fetched.has_data() <==> (crate::json::json_parsed(body) matches Some(value)
            && crate::decode::response_shaped(value)),
{
}

} // verus!
