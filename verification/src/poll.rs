//! What a storage's stream of tasks yields.
//!
//! A stream first yields one item for the registration of its worker, and after it the items of
//! the fetchers. An item is `Ok(Some(task))`, `Ok(None)` where there is no task, or an error,
//! after which the stream goes on.
use vstd::prelude::*;

use crate::task::{
    is_status, row_found_by_id_carries_it, task_carries_the_row, CompactType, PgTask, TaskRow,
};
use crate::task_id::{id_text, PgTaskId};

verus! {

/// Why an item of a stream holds no task: `E` is the error of the database and `D` that of the
/// codec.
pub enum PollError<E, D> {
    /// The database failed.
    Sql(E),
    /// A row does not stand for a task; the text says why.
    Protocol(String),
    /// The arguments of a task could not be decoded.
    Decode(D),
}

/// An item of a stream whose tasks have arguments of the form `Args`.
pub type Item<Args, E, D> = Result<Option<PgTask<Args>>, PollError<E, D>>;

/// Whether `item` is what a stream yields for a row, or for the error that came in its place.
pub open spec fn is_row_item<E, D>(
    row: Result<TaskRow, E>,
    item: Item<CompactType, E, D>,
) -> bool {
    match row {
        Err(e) => item == Err::<Option<PgTask<CompactType>>, _>(PollError::<E, D>::Sql(e)),
        Ok(row) => match row.outcome() {
            Ok(task) => item == Ok::<_, PollError<E, D>>(Some(task)),
            Err(text) => item matches Err(PollError::Protocol(s)) && s@ == text,
        },
    }
}

/// The item of a row, or of the error that came in its place.
pub fn row_item<E, D>(row: Result<TaskRow, E>) -> (item: Item<CompactType, E, D>)
    requires
        row matches Ok(r) ==> r.wf(),
    ensures
        is_row_item(row, item),
{
    match row {
        Err(e) => Err(PollError::Sql(e)),
        Ok(row) => match row.try_into_task_compact() {
            Ok(task) => Ok(Some(task)),
            Err(text) => Err(PollError::Protocol(text)),
        },
    }
}

/// What the transaction that queues a batch of tasks came to: an error when it could not begin,
/// else the rows, with the errors that came in place of some, and whether it was committed.
pub type BatchReply<E> = Result<(Vec<Result<TaskRow, E>>, Result<(), E>), E>;

/// Whether every row of a reply is well formed.
pub open spec fn reply_wf<E>(reply: BatchReply<E>) -> bool {
    reply matches Ok((rows, _)) ==> forall|i: int|
        0 <= i < rows@.len() ==> (#[trigger] rows@[i] matches Ok(r) ==> r.wf())
}

/// Whether `items` is the one item of a failure of the database.
pub open spec fn is_lone_error<E, D>(e: E, items: Seq<Item<CompactType, E, D>>) -> bool {
    items.len() == 1 && items[0] == Err::<Option<PgTask<CompactType>>, _>(PollError::<E, D>::Sql(e))
}

/// Whether `items` are what a stream yields for a batch: one item for each row, in their order;
/// or, when the transaction did not begin or was not committed, its error alone.
pub open spec fn are_batch_items<E, D>(
    reply: BatchReply<E>,
    items: Seq<Item<CompactType, E, D>>,
) -> bool {
    match reply {
        Err(e) => is_lone_error(e, items),
        Ok((_, Err(e))) => is_lone_error(e, items),
        Ok((rows, Ok(()))) => {
            &&& items.len() == rows@.len()
            &&& forall|i: int| 0 <= i < items.len() ==> is_row_item(rows@[i], #[trigger] items[i])
        },
    }
}

/// The items of a batch of tasks that was queued for the worker.
pub fn batch_items<E, D>(reply: BatchReply<E>) -> (items: Vec<Item<CompactType, E, D>>)
    requires
        reply_wf(reply),
    ensures
        are_batch_items(reply, items@),
{
    let mut items: Vec<Item<CompactType, E, D>> = Vec::new();
    match reply {
        Err(e) => {
            items.push(Err(PollError::Sql(e)));
        },
        Ok((_, Err(e))) => {
            items.push(Err(PollError::Sql(e)));
        },
        Ok((rows, Ok(()))) => {
            let ghost all = rows@;
            for row in it: rows.into_iter()
                invariant
                    it.seq() == all,
                    forall|i: int|
                        0 <= i < all.len() ==> (#[trigger] all[i] matches Ok(r) ==> r.wf()),
                    items@.len() == it.index(),
                    forall|i: int|
                        0 <= i < items@.len() ==> is_row_item(all[i], #[trigger] items@[i]),
            {
                items.push(row_item(row));
            }
        },
    }
    items
}

/// The item that the registration of a worker gives: no task, or the error. The error does not
/// end the stream.
pub fn registration_item<T, E, D>(registered: Result<(), E>) -> (item: Result<
    Option<T>,
    PollError<E, D>,
>)
    ensures
        item == (match registered {
            Ok(()) => Ok(None::<T>),
            Err(e) => Err(PollError::<E, D>::Sql(e)),
        }),
{
    match registered {
        Ok(()) => Ok(None),
        Err(e) => Err(PollError::Sql(e)),
    }
}

/// An item with the arguments of its task, where it has one, decoded by `decode`.
pub fn decoded_item<Args, E, D, F: FnOnce(CompactType) -> Result<Args, D>>(
    item: Item<CompactType, E, D>,
    decode: F,
) -> (decoded: Item<Args, E, D>)
    requires
        item matches Ok(Some(task)) ==> decode.requires((task.args,)),
    ensures
        match item {
            Ok(Some(task)) => match decoded {
                Ok(Some(t)) => decode.ensures((task.args,), Ok(t.args)) && t.parts == task.parts,
                Err(PollError::Decode(e)) => decode.ensures((task.args,), Err(e)),
                _ => false,
            },
            Ok(None) => decoded == Ok::<_, PollError<E, D>>(None::<PgTask<Args>>),
            Err(e) => decoded == Err::<Option<PgTask<Args>>, _>(e),
        },
{
    match item {
        Ok(Some(task)) => match task.try_map(decode) {
            Ok(t) => Ok(Some(t)),
            Err(e) => Err(PollError::Decode(e)),
        },
        Ok(None) => Ok(None),
        Err(e) => Err(e),
    }
}

/// A task that was looked up by its identifier's text, and whose row is sound, is yielded, with
/// that identifier and the arguments as stored.
pub proof fn looked_up_task_is_yielded<E, D>(
    row: TaskRow,
    id: PgTaskId,
    item: Item<CompactType, E, D>,
)
    requires
        row.id@ == id_text(id.ulid),
        is_status(row.status@),
        row.run_at is Some,
        is_row_item(Ok::<TaskRow, E>(row), item),
    ensures
        item matches Ok(Some(task)) && task.parts.task_id == Some(id) && task.args == row.job,
{
    row_found_by_id_carries_it(row, id);
}

/// A batch yields tasks only if its transaction was committed, and then one for each row that
/// stands for a task, in the rows' order.
pub proof fn batch_yields_tasks_once_committed<E, D>(
    reply: BatchReply<E>,
    items: Seq<Item<CompactType, E, D>>,
    i: int,
)
    requires
        are_batch_items(reply, items),
        0 <= i < items.len(),
    ensures
        items[i] matches Ok(Some(task)) ==> {
            &&& reply matches Ok((rows, Ok(())))
            &&& rows@[i] matches Ok(row)
            &&& row.outcome() == Ok::<_, Seq<char>>(task)
        },
        reply matches Ok((rows, Ok(()))) ==> (rows@[i] matches Ok(row) ==> (
        row.outcome() matches Ok(task) ==> items[i] == Ok::<_, PollError<E, D>>(Some(task)))),
{
}

/// Whether two items are the same to whoever reads the stream: equal, or failed for the same
/// reason.
pub open spec fn same_item<E, D>(
    a: Item<CompactType, E, D>,
    b: Item<CompactType, E, D>,
) -> bool {
    match (a, b) {
        (Err(PollError::Protocol(s)), Err(PollError::Protocol(t))) => s@ == t@,
        _ => a == b,
    }
}

/// What a batch yields depends on the reply of the database alone, not on the stream that asked
/// for it.
pub proof fn reply_decides_the_items<E, D>(
    reply: BatchReply<E>,
    a: Seq<Item<CompactType, E, D>>,
    b: Seq<Item<CompactType, E, D>>,
)
    requires
        are_batch_items(reply, a),
        are_batch_items(reply, b),
    ensures
        a.len() == b.len(),
        forall|i: int| 0 <= i < a.len() ==> same_item(#[trigger] a[i], b[i]),
{
    if let Ok((rows, Ok(()))) = reply {
        assert forall|i: int| 0 <= i < a.len() implies same_item(#[trigger] a[i], b[i]) by {
            assert(is_row_item(rows@[i], a[i]));
            assert(is_row_item(rows@[i], b[i]));
        }
    }
}

/// A batch that was committed yields an item for every row that came back, as many as there are
/// and in their order: the row's task where it stands for one, the reason where it does not, and
/// the database's error where that came in the row's place.
pub proof fn committed_batch_yields_every_row<E, D>(
    rows: Vec<Result<TaskRow, E>>,
    items: Seq<Item<CompactType, E, D>>,
)
    requires
        are_batch_items(Ok::<_, E>((rows, Ok(()))), items),
    ensures
        items.len() == rows@.len(),
        forall|i: int|
            #![trigger rows@[i]]
            #![trigger items[i]]
            0 <= i < rows@.len() ==> match rows@[i] {
                Ok(row) => match row.outcome() {
                    Ok(task) => items[i] == Ok::<_, PollError<E, D>>(Some(task)),
                    Err(text) => items[i] matches Err(PollError::Protocol(s)) && s@ == text,
                },
                Err(e) => items[i] matches Err(PollError::Sql(s)) && s == e,
            },
{
    assert forall|i: int| 0 <= i < rows@.len() implies is_row_item(rows@[i], items[i]) by {}
}

/// A batch that could not begin or was not committed yields one item, the database's error,
/// whatever rows came back.
pub proof fn failed_batch_yields_its_error<E, D>(
    reply: BatchReply<E>,
    e: E,
    items: Seq<Item<CompactType, E, D>>,
)
    requires
        are_batch_items(reply, items),
        reply == Err::<(Vec<Result<TaskRow, E>>, Result<(), E>), E>(e) || (reply matches Ok((_, Err(c)))
            && c == e),
    ensures
        items.len() == 1,
        items[0] matches Err(PollError::Sql(s)) && s == e,
{
}

/// A row's item is its own: the task that is yielded has the row's arguments, attempts and
/// status, and where the row stands for no task there is none.
pub proof fn row_item_is_the_row_s<E, D>(row: TaskRow, item: Item<CompactType, E, D>)
    requires
        is_row_item(Ok::<TaskRow, E>(row), item),
    ensures
        row.outcome() is Ok <==> item is Ok,
        item matches Ok(given) ==> {
            &&& given matches Some(task)
            &&& task.args == row.job
            &&& task.parts.attempt == row.attempts
            &&& task.parts.status == row.status
        },
        item matches Err(e) ==> e is Protocol,
{
    task_carries_the_row(row);
}

} // verus!
