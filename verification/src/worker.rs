//! The worker's side: one command at a time against the store, and the
//! reply that each command gets.

use vstd::prelude::*;
use crate::database::delete;
use crate::database::get;
use crate::database::pattern_of;
use crate::database::remaining;
use crate::database::selected;
use crate::database::update;
use crate::database::updated;
use crate::database::Table;
use crate::dataformat::DataFrame;
use crate::dataformat::Query;
use crate::error::Error;
use crate::message_passing::Message;
use crate::message_passing::Reply;
use crate::message_passing::ReplySlot;
use crate::message_passing::ResponseMessage;
use crate::status::StatusCode;

verus! {

/// What a command asks of the store, without the channel it answers on.
pub enum Command {
    Create(DataFrame),
    Read(Query),
    Update(Query, DataFrame),
    Delete(Query),
}

impl Message {
    /// What the message asks of the store.
    pub open spec fn command(&self) -> Command {
        match *self {
            Message::Post(record) => Command::Create(record),
            Message::Get(query, _) => Command::Read(query),
            Message::Delete(query, _) => Command::Delete(query),
            Message::Put(query, record, _) => Command::Update(query, record),
        }
    }
}

/// The store after one command. A command whose query is not supported
/// changes nothing, and a read never does.
pub open spec fn rows_after(rows: Seq<DataFrame>, command: Command) -> Seq<DataFrame> {
    match command {
        Command::Create(record) => rows.push(record),
        Command::Read(_) => rows,
        Command::Update(query, values) => match pattern_of(query) {
            Some(pattern) => updated(rows, pattern, values),
            None => rows,
        },
        Command::Delete(query) => match pattern_of(query) {
            Some(pattern) => remaining(rows, pattern),
            None => rows,
        },
    }
}

/// The store after a run of commands, the first one first.
pub open spec fn rows_after_all(rows: Seq<DataFrame>, commands: Seq<Command>) -> Seq<DataFrame>
    decreases commands.len(),
{
    if commands.len() == 0 {
        rows
    } else {
        rows_after(rows_after_all(rows, commands.drop_last()), commands.last())
    }
}

/// What a read finds: the selected records, or nothing for a query that is
/// not supported.
pub open spec fn read_result(rows: Seq<DataFrame>, query: Query) -> Option<Seq<DataFrame>> {
    match pattern_of(query) {
        Some(pattern) => Some(selected(rows, pattern)),
        None => None,
    }
}

/// Idempotence of reads: a read finds the same records again as long as
/// nothing but reads happens in between.
pub proof fn lemma_read_is_idempotent(rows: Seq<DataFrame>, between: Seq<Command>, query: Query)
    requires
        forall|i: int| 0 <= i < between.len() ==> #[trigger] between[i] is Read,
    ensures
        rows_after_all(rows, between) == rows,
        read_result(rows_after_all(rows, between), query) == read_result(rows, query),
    decreases between.len(),
{
    if between.len() > 0 {
        lemma_read_is_idempotent(rows, between.drop_last(), query);
        assert(between.last() == between[between.len() - 1]);
        assert(between.last() is Read);
    }
}

/// What the worker has done with one command and what is left to do.
#[derive(Debug)]
pub enum Step {
    /// The command asked for no reply.
    Finished,
    /// The records of a read wait to be written out and sent.
    Read(Result<Vec<DataFrame>, Error>, ReplySlot),
    /// The reply waits to be sent.
    Answer(Reply, ReplySlot),
}

/// Whether `reply` has the status `code` and the text `text`.
pub open spec fn is_reply(reply: Reply, code: u16, text: Seq<char>) -> bool {
    reply.status().value() == code && reply.payload()@ == text
}

/// The text that answers a command whose query is not supported.
pub open spec fn not_supported_text() -> Seq<char> {
    "Query not supported"@
}

/// A reply with the text of a literal.
fn reply_with(text: &str, status: StatusCode) -> (r: Reply)
    ensures
        r.status() == status,
        r.payload()@ == text@,
{
    ResponseMessage::new(String::from_str(text), status)
}

/// The status and text that answer a delete.
pub open spec fn delete_answer(result: Result<(), Error>) -> (u16, Seq<char>) {
    match result {
        Ok(_) => (200, Seq::<char>::empty()),
        Err(Error::DatabaseDeletionError(reason)) => (400, reason@),
        Err(Error::DatabaseQueryNotSupported) => (400, not_supported_text()),
        Err(_) => (500, "Undefined Behaviour"@),
    }
}

/// The reply to a delete: success, the store's reason for a refusal, or a
/// server-side failure.
pub fn delete_reply(result: Result<(), Error>) -> (r: Reply)
    ensures
        is_reply(r, delete_answer(result).0, delete_answer(result).1),
{
    match result {
        Ok(_) => ResponseMessage::new(String::new(), StatusCode::ok()),
        Err(Error::DatabaseDeletionError(reason)) => ResponseMessage::new(
            reason,
            StatusCode::bad_request(),
        ),
        Err(Error::DatabaseQueryNotSupported) => reply_with(
            "Query not supported",
            StatusCode::bad_request(),
        ),
        Err(_) => reply_with("Undefined Behaviour", StatusCode::internal_server_error()),
    }
}

/// The status and text that answer an update.
pub open spec fn update_answer(result: Result<(), Error>) -> (u16, Seq<char>) {
    match result {
        Ok(_) => (200, Seq::<char>::empty()),
        Err(Error::DatabaseUpdateError(reason)) => (400, reason@),
        Err(Error::DatabaseQueryNotSupported) => (400, not_supported_text()),
        Err(_) => (500, "Undefined Behaviour"@),
    }
}

/// The reply to an update: success, the store's reason for a refusal, or a
/// server-side failure.
pub fn update_reply(result: Result<(), Error>) -> (r: Reply)
    ensures
        is_reply(r, update_answer(result).0, update_answer(result).1),
{
    match result {
        Ok(_) => ResponseMessage::new(String::new(), StatusCode::ok()),
        Err(Error::DatabaseUpdateError(reason)) => ResponseMessage::new(
            reason,
            StatusCode::bad_request(),
        ),
        Err(Error::DatabaseQueryNotSupported) => reply_with(
            "Query not supported",
            StatusCode::bad_request(),
        ),
        Err(_) => reply_with("Undefined Behaviour", StatusCode::internal_server_error()),
    }
}

/// The texts of `items`.
pub open spec fn texts_view(items: Seq<String>) -> Seq<Seq<char>> {
    Seq::new(items.len(), |i: int| items[i]@)
}

/// The entries of the list, each on a line of its own, with a comma
/// between two of them.
pub open spec fn listed(items: Seq<Seq<char>>) -> Seq<char>
    decreases items.len(),
{
    if items.len() == 0 {
        Seq::<char>::empty()
    } else if items.len() == 1 {
        "\n\t\t"@ + items[0]
    } else {
        listed(items.drop_last()) + ","@ + "\n\t\t"@ + items.last()
    }
}

/// The body that lists the records of a read: an object whose `response`
/// is the array of the records.
pub open spec fn listing(items: Seq<Seq<char>>) -> Seq<char> {
    "{\n\t \"response\": ["@ + listed(items) + "\n\t]"@ + "\n}"@
}

/// Writes the body that lists `items`, each of them one record written out.
pub fn render_listing(items: &Vec<String>) -> (r: String)
    ensures
        r@ == listing(texts_view(items@)),
{
    let ghost texts = texts_view(items@);
    let mut list = String::new();
    let mut i: usize = 0;
    while i < items.len()
        invariant
            i <= items.len(),
            texts == texts_view(items@),
            list@ == listed(texts.take(i as int)),
        decreases items.len() - i,
    {
        let ghost before = list@;
        if i > 0 {
            list.append(",");
        }
        list.append("\n\t\t");
        list.append(items[i].as_str());
        proof {
            let longer = texts.take(i + 1);
            assert(longer.drop_last() =~= texts.take(i as int));
            assert(longer.last() == items@[i as int]@);
            if i == 0 {
                assert(before =~= Seq::<char>::empty());
                assert(list@ =~= "\n\t\t"@ + longer[0]);
            } else {
                assert(list@ =~= before + ","@ + "\n\t\t"@ + longer.last());
            }
        }
        i += 1;
    }
    assert(texts.take(items.len() as int) =~= texts);
    let mut body = String::from_str("{\n\t \"response\": [");
    body.append(list.as_str());
    body.append("\n\t]");
    body.append("\n}");
    body
}

/// The texts of the records, where the read found any.
pub open spec fn rendered_view(rendered: Result<Vec<String>, Error>) -> Result<Seq<Seq<char>>, Error> {
    match rendered {
        Ok(items) => Ok(texts_view(items@)),
        Err(e) => Err(e),
    }
}

/// The status and text that answer a read.
pub open spec fn read_answer(rendered: Result<Seq<Seq<char>>, Error>) -> (u16, Seq<char>) {
    match rendered {
        Ok(items) => (200, listing(items)),
        Err(Error::DatabaseQueryFailed(reason)) => (400, reason@),
        Err(Error::DatabaseQueryNotSupported) => (400, not_supported_text()),
        Err(_) => (500, "Unknown Error"@),
    }
}

/// The reply to a read: the listing of the records, each already written
/// out, the store's reason for a refusal, or a server-side failure.
pub fn read_reply(rendered: Result<Vec<String>, Error>) -> (r: Reply)
    ensures
        is_reply(r, read_answer(rendered_view(rendered)).0, read_answer(rendered_view(rendered)).1),
{
    match rendered {
        Ok(items) => ResponseMessage::new(render_listing(&items), StatusCode::ok()),
        Err(Error::DatabaseQueryFailed(reason)) => ResponseMessage::new(
            reason,
            StatusCode::bad_request(),
        ),
        Err(Error::DatabaseQueryNotSupported) => reply_with(
            "Query not supported",
            StatusCode::bad_request(),
        ),
        Err(_) => reply_with("Unknown Error", StatusCode::internal_server_error()),
    }
}

/// Runs one command against the store. A create is done with that; a read
/// hands its records on to be written out; an update and a delete hand on
/// their reply. The slot of the command comes back untouched.
pub fn execute(table: &mut Table, message: Message) -> (r: Step)
    ensures
        final(table)@ == rows_after(old(table)@, message.command()),
        match message {
            Message::Post(_) => r is Finished,
            Message::Get(query, slot) => r matches Step::Read(found, back) && back == slot && (
            match read_result(old(table)@, query) {
                Some(records) => found matches Ok(v) && v@ == records,
                None => found == Err::<Vec<DataFrame>, Error>(Error::DatabaseQueryNotSupported),
            }),
            Message::Delete(query, slot) => r matches Step::Answer(reply, back) && back == slot
                && is_reply(
                reply,
                if pattern_of(query) is Some {
                    200
                } else {
                    400
                },
                if pattern_of(query) is Some {
                    Seq::<char>::empty()
                } else {
                    not_supported_text()
                },
            ),
            Message::Put(query, _, slot) => r matches Step::Answer(reply, back) && back == slot
                && is_reply(
                reply,
                if pattern_of(query) is Some {
                    200
                } else {
                    400
                },
                if pattern_of(query) is Some {
                    Seq::<char>::empty()
                } else {
                    not_supported_text()
                },
            ),
        },
{
    match message {
        Message::Post(record) => {
            table.insert(record);
            Step::Finished
        },
        Message::Get(query, slot) => Step::Read(get(&query, table), slot),
        Message::Delete(query, slot) => Step::Answer(delete_reply(delete(&query, table)), slot),
        Message::Put(query, record, slot) => Step::Answer(
            update_reply(update(&query, &record, table)),
            slot,
        ),
    }
}

/// Sends the reply of a command on its slot. The reply comes back where
/// nobody waits for it any more, or where the slot was used before.
pub fn answer(reply: Reply, slot: ReplySlot) -> (r: Result<(), Reply>)
    ensures
        !slot.is_open() ==> r == Err::<(), Reply>(reply),
        r matches Err(back) ==> back == reply,
{
    let mut slot = slot;
    slot.fulfill(reply)
}

/// Whether a key asks the worker to stop: the worker stops on `q`.
pub fn is_shutdown_key(key: char) -> (r: bool)
    ensures
        r == (key == 'q'),
{
    key == 'q'
}

} // verus!
