//! The queue service: samples go in with a create and come out, oldest
//! first, with a read.

use std::collections::VecDeque;
use vstd::prelude::*;
use vstd::utf8::decode_utf8;
use vstd::utf8::valid_utf8;
use crate::body::utf8_text;
use crate::connector::is_response;
use crate::data::DataFrame;
use crate::http_handling::Method;
use crate::response::build_response;
use crate::response::HttpResponse;
use crate::status::StatusCode;

verus! {

/// Why the body of a create is no sample.
#[derive(Debug, Clone, Copy, PartialEq, Eq, Structural)]
pub enum MethodError {
    /// The body is not valid UTF-8.
    UTF8Conversion,
    /// The body is text, but not a sample.
    JSONParsingError,
}

impl MethodError {
    /// The name of the error.
    pub open spec fn name(self) -> Seq<char> {
        match self {
            MethodError::UTF8Conversion => "UTF8Conversion"@,
            MethodError::JSONParsingError => "JSONParsingError"@,
        }
    }

    /// The name of the error, as it is reported to the client.
    pub fn to_text(&self) -> (r: String)
        ensures
            r@ == self.name(),
    {
        match self {
            MethodError::UTF8Conversion => String::from_str("UTF8Conversion"),
            MethodError::JSONParsingError => String::from_str("JSONParsingError"),
        }
    }
}

/// The text of the body of a create, which must be valid UTF-8.
pub fn body_text(body: &[u8]) -> (r: Result<String, MethodError>)
    ensures
        match r {
            Ok(text) => valid_utf8(body@) && text@ == decode_utf8(body@),
            Err(e) => !valid_utf8(body@) && e == MethodError::UTF8Conversion,
        },
{
    match utf8_text(body) {
        Some(text) => Ok(text),
        None => Err(MethodError::UTF8Conversion),
    }
}

/// What a handler does with a request.
#[derive(Debug)]
pub enum Submission {
    /// Answer at once.
    Respond(HttpResponse),
    /// Hand a sample to the queue, or ask it for one, and wait for its
    /// answer.
    Enqueue(Option<DataFrame>),
}

/// Decides what to do with a request by its method. A create with a sample
/// hands it to the queue; a create without one is rejected with the name of
/// what is wrong with its body; a read asks the queue; every other method
/// is answered as not implemented. `sample` is what the body was read as;
/// only a create looks at it.
pub fn method_handling(method: Method, sample: Result<DataFrame, MethodError>) -> (r: Submission)
    ensures
        match (method, sample) {
            (Method::Post, Ok(data)) => r == Submission::Enqueue(Some(data)),
            (Method::Post, Err(e)) => r matches Submission::Respond(response) && is_response(
                response,
                400,
                e.name(),
            ),
            (Method::Get, _) => r == Submission::Enqueue(None),
            _ => r matches Submission::Respond(response) && is_response(
                response,
                501,
                "Method is not implemented"@,
            ),
        },
{
    match method {
        Method::Post => match sample {
            Ok(data) => Submission::Enqueue(Some(data)),
            Err(e) => Submission::Respond(
                build_response(StatusCode::bad_request(), Some(e.to_text())),
            ),
        },
        Method::Get => Submission::Enqueue(None),
        _ => Submission::Respond(
            build_response(
                StatusCode::not_implemented(),
                Some(String::from_str("Method is not implemented")),
            ),
        ),
    }
}

/// The response that ends the wait for the queue: the queue's answer, or a
/// bad gateway where the queue is gone.
pub fn queue_response(outcome: Option<HttpResponse>) -> (r: HttpResponse)
    ensures
        match outcome {
            Some(response) => r == response,
            None => is_response(r, 502, "RecvError"@),
        },
{
    match outcome {
        Some(response) => response,
        None => build_response(StatusCode::bad_gateway(), Some(String::from_str("RecvError"))),
    }
}

/// What the queue did with a request.
#[derive(Debug, Clone, Copy, PartialEq, Eq, Structural)]
pub enum QueueAnswer {
    /// The sample was stored.
    Stored,
    /// The oldest sample, now taken out.
    Taken(DataFrame),
    /// A read found the queue empty.
    Empty,
}

/// Serves one request to the queue: a sample goes in at the front, a read
/// takes the one at the back, which is the oldest.
pub fn queue_step(buffer: &mut VecDeque<DataFrame>, data: Option<DataFrame>) -> (r: QueueAnswer)
    ensures
        match data {
            Some(sample) => r == QueueAnswer::Stored && final(buffer)@ == seq![sample] + old(buffer)@,
            None => if old(buffer)@.len() == 0 {
                r == QueueAnswer::Empty && final(buffer)@ == old(buffer)@
            } else {
                r == QueueAnswer::Taken(old(buffer)@.last()) && final(buffer)@ == old(
                    buffer,
                )@.drop_last()
            },
        },
{
    match data {
        Some(sample) => {
            buffer.push_front(sample);
            QueueAnswer::Stored
        },
        None => match buffer.pop_back() {
            Some(sample) => QueueAnswer::Taken(sample),
            None => QueueAnswer::Empty,
        },
    }
}

/// The response to a request that the queue has served. For a sample that
/// was taken out, `written` is the sample written out.
pub fn queue_answer_response(answer: QueueAnswer, written: String) -> (r: HttpResponse)
    ensures
        match answer {
            QueueAnswer::Stored => is_response(r, 200, Seq::<char>::empty()),
            QueueAnswer::Taken(_) => is_response(r, 200, written@),
            QueueAnswer::Empty => is_response(r, 200, "MEMORY QUEUE IS EMPTY"@),
        },
{
    match answer {
        QueueAnswer::Stored => build_response(StatusCode::ok(), None),
        QueueAnswer::Taken(_) => build_response(StatusCode::ok(), Some(written)),
        QueueAnswer::Empty => build_response(
            StatusCode::ok(),
            Some(String::from_str("MEMORY QUEUE IS EMPTY")),
        ),
    }
}

} // verus!
