//! What travels between the request handlers and the worker.

use vstd::prelude::*;
use crate::dataformat::DataFrame;
use crate::dataformat::Query;
use crate::status::StatusCode;

verus! {

/// An answer of the worker: a status and what the status comes with.
#[derive(Debug, Clone, PartialEq, Eq)]
pub struct ResponseMessage<T> {
    content: T,
    status_code: StatusCode,
}

impl<T> ResponseMessage<T> {
    /// What the answer comes with.
    pub closed spec fn payload(&self) -> T {
        self.content
    }

    /// The status of the answer.
    pub closed spec fn status(&self) -> StatusCode {
        self.status_code
    }

    /// The answer with the given content and status.
    pub fn new(content: T, status_code: StatusCode) -> (r: Self)
        ensures
            r.payload() == content,
            r.status() == status_code,
    {
        Self { content, status_code }
    }
}

/// An answer that can be turned into a response.
pub trait Response: Send + Sync {
    /// The text of the answer.
    spec fn text(&self) -> Seq<char>;

    /// The status of the answer.
    spec fn code(&self) -> StatusCode;

    /// The text of the answer.
    fn content(&self) -> (r: String)
        ensures
            r@ == self.text(),
    ;

    /// The status of the answer.
    fn status_code(&self) -> (r: StatusCode)
        ensures
            r == self.code(),
    ;
}

impl Response for ResponseMessage<String> {
    open spec fn text(&self) -> Seq<char> {
        self.payload()@
    }

    open spec fn code(&self) -> StatusCode {
        self.status()
    }

    fn content(&self) -> (r: String) {
        self.content.clone()
    }

    fn status_code(&self) -> (r: StatusCode) {
        self.status_code
    }
}

/// The answer that the worker sends back for one command.
pub type Reply = ResponseMessage<String>;

/// The sending end of tokio's one-shot channel, carried as it is.
#[verifier::external_type_specification]
#[verifier::external_body]
#[verifier::reject_recursive_types(T)]
pub struct ExOneshotSender<T>(tokio::sync::oneshot::Sender<T>);

/// The receiving end of tokio's one-shot channel, carried as it is.
#[verifier::external_type_specification]
#[verifier::external_body]
#[verifier::reject_recursive_types(T)]
pub struct ExOneshotReceiver<T>(tokio::sync::oneshot::Receiver<T>);

/// What waiting on a closed one-shot channel gives; named by the receiving
/// end, never read here.
#[verifier::external_type_specification]
#[verifier::external_body]
pub struct ExOneshotRecvError(tokio::sync::oneshot::error::RecvError);

/// `tokio::sync::oneshot::channel`. Nothing is claimed of the two ends.
#[verifier::external_body]
fn oneshot_channel() -> (r: (
    tokio::sync::oneshot::Sender<Reply>,
    tokio::sync::oneshot::Receiver<Reply>,
)) {
    tokio::sync::oneshot::channel()
}

/// `tokio::sync::oneshot::Sender::send`. Trusted: a value that could not be
/// sent comes back unchanged.
#[verifier::external_body]
fn oneshot_send(sender: tokio::sync::oneshot::Sender<Reply>, reply: Reply) -> (r: Result<(), Reply>)
    ensures
        r matches Err(back) ==> back == reply,
{
    sender.send(reply)
}

/// What a look at the receiving end of a reply slot finds.
#[derive(Debug)]
pub enum Awaited {
    /// No reply was sent yet.
    Pending,
    /// The reply.
    Ready(Reply),
    /// The slot was dropped without a reply, or the reply was taken before.
    Closed,
}

/// `tokio::sync::oneshot::Receiver::try_recv`. Nothing is claimed of which
/// of the three outcomes comes.
#[verifier::external_body]
fn oneshot_try_recv(receiver: &mut tokio::sync::oneshot::Receiver<Reply>) -> (r: Awaited) {
    match receiver.try_recv() {
        Ok(reply) => Awaited::Ready(reply),
        Err(tokio::sync::oneshot::error::TryRecvError::Empty) => Awaited::Pending,
        Err(tokio::sync::oneshot::error::TryRecvError::Closed) => Awaited::Closed,
    }
}

/// The sending end of a single-use channel for one reply.
#[derive(Debug)]
pub struct ReplySlot {
    sender: Option<tokio::sync::oneshot::Sender<Reply>>,
}

/// The receiving end of a single-use channel for one reply.
#[derive(Debug)]
pub struct ReplyReceiver {
    receiver: tokio::sync::oneshot::Receiver<Reply>,
}

/// A fresh reply slot with its receiving end.
pub fn reply_channel() -> (r: (ReplySlot, ReplyReceiver))
    ensures
        r.0.is_open(),
{
    let (sender, receiver) = oneshot_channel();
    (ReplySlot { sender: Some(sender) }, ReplyReceiver { receiver })
}

impl ReplySlot {
    /// Whether the slot can still take a reply.
    pub closed spec fn is_open(&self) -> bool {
        self.sender is Some
    }

    /// Whether the slot can still take a reply.
    pub fn open(&self) -> (r: bool)
        ensures
            r == self.is_open(),
    {
        self.sender.is_some()
    }

    /// Hands the reply to the waiting handler. A slot takes one reply: after
    /// the call it is spent, and a spent slot hands every reply back.
    pub fn fulfill(&mut self, reply: Reply) -> (r: Result<(), Reply>)
        ensures
            !final(self).is_open(),
            !old(self).is_open() ==> r == Err::<(), Reply>(reply),
            r matches Err(back) ==> back == reply,
    {
        match self.sender.take() {
            Some(sender) => oneshot_send(sender, reply),
            None => Err(reply),
        }
    }
}

impl ReplyReceiver {
    /// Looks for the reply without waiting.
    pub fn try_take(&mut self) -> Awaited {
        oneshot_try_recv(&mut self.receiver)
    }

    /// The channel end itself, for a handler that waits on it.
    pub fn into_inner(self) -> (r: tokio::sync::oneshot::Receiver<Reply>)
        ensures
            r == self.channel(),
    {
        self.receiver
    }

    /// The channel end that the receiver holds.
    pub closed spec fn channel(self) -> tokio::sync::oneshot::Receiver<Reply> {
        self.receiver
    }
}

/// A command for the worker.
#[derive(Debug)]
pub enum Message {
    /// Store a record. No reply is expected.
    Post(DataFrame),
    /// Read the records that the query selects.
    Get(Query, ReplySlot),
    /// Delete the records that the query selects.
    Delete(Query, ReplySlot),
    /// Rewrite the records that the query selects.
    Put(Query, DataFrame, ReplySlot),
}

} // verus!
