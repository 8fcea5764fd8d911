//! The sample that the queue service keeps, and what a handler hands to
//! the queue.

use vstd::prelude::*;
use crate::response::HttpResponse;

verus! {

/// One dated temperature sample of one device.
#[derive(Debug, Clone, Copy, PartialEq, Eq, Structural)]
pub struct DataFrame {
    pub date: u64,
    pub temp: i16,
    pub device_id: u32,
}

/// The sending end of async-std's channel, carried as it is.
#[verifier::external_type_specification]
#[verifier::external_body]
#[verifier::reject_recursive_types(T)]
pub struct ExQueueSender<T>(async_std::channel::Sender<T>);

/// `async_std::channel::Sender::try_send`. Trusted: a response that could
/// not be sent comes back unchanged.
#[verifier::external_body]
fn queue_try_send(sender: async_std::channel::Sender<HttpResponse>, response: HttpResponse) -> (r:
    Result<(), HttpResponse>)
    ensures
        r matches Err(back) ==> back == response,
{
    sender.try_send(response).map_err(|e| e.into_inner())
}

/// The single-use channel end on which the queue answers one request.
#[derive(Debug)]
pub struct AnswerSlot {
    sender: Option<async_std::channel::Sender<HttpResponse>>,
}

impl AnswerSlot {
    /// Whether the slot can still take an answer.
    pub closed spec fn is_open(&self) -> bool {
        self.sender is Some
    }

    /// The slot that answers on `sender`.
    pub fn new(sender: async_std::channel::Sender<HttpResponse>) -> (r: AnswerSlot)
        ensures
            r.is_open(),
    {
        AnswerSlot { sender: Some(sender) }
    }

    /// Whether the slot can still take an answer.
    pub fn open(&self) -> (r: bool)
        ensures
            r == self.is_open(),
    {
        self.sender.is_some()
    }

    /// Hands the answer to the waiting handler, without waiting. A slot
    /// takes one answer: after the call it is spent, and a spent slot hands
    /// every answer back.
    pub fn fulfill(&mut self, response: HttpResponse) -> (r: Result<(), HttpResponse>)
        ensures
            !final(self).is_open(),
            !old(self).is_open() ==> r == Err::<(), HttpResponse>(response),
            r matches Err(back) ==> back == response,
    {
        match self.sender.take() {
            Some(sender) => queue_try_send(sender, response),
            None => Err(response),
        }
    }
}

/// A request to the queue: a sample to store, or none to ask for the
/// oldest one, with the slot on which the answer is expected.
#[derive(Debug)]
pub struct Sendable {
    pub sender: AnswerSlot,
    pub data: Option<DataFrame>,
}

} // verus!
