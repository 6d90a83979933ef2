//! Rows of the `jobs` table and the tasks that they stand for.
use vstd::prelude::*;

use apalis_core::task::Task;
use apalis_sql::context::SqlContext;
use apalis_sql::{DateTime, DateTimeExt};
use serde_json::{Map as JsonMap, Value};
use ulid::Ulid;

use crate::task_id::{id_text, id_text_reads_back, parsed_id, PgTaskId};

verus! {

/// Arguments of a task as the database stores them.
pub type CompactType = Vec<u8>;

/// A JSON value of `serde_json`, which the library only hands on.
#[verifier::external_type_specification]
#[verifier::external_body]
pub struct ExValue(serde_json::Value);

/// A JSON object of `serde_json`, which the library only hands on.
#[verifier::external_type_specification]
#[verifier::external_body]
#[verifier::reject_recursive_types(K)]
#[verifier::reject_recursive_types(V)]
pub struct ExJsonMap<K, V>(serde_json::Map<K, V>);

/// A task of `apalis_core`; [`sql_task`] names what one holds.
#[verifier::external_type_specification]
#[verifier::external_body]
#[verifier::reject_recursive_types(Args)]
#[verifier::reject_recursive_types(Context)]
#[verifier::reject_recursive_types(IdType)]
pub struct ExTask<Args, Context, IdType>(apalis_core::task::Task<Args, Context, IdType>);

/// The context that `apalis_sql` gives to a task.
#[verifier::external_type_specification]
#[verifier::external_body]
#[verifier::reject_recursive_types(Pool)]
pub struct ExSqlContext<Pool>(apalis_sql::context::SqlContext<Pool>);

/// The identifier of `ulid`.
#[verifier::external_type_specification]
#[verifier::external_body]
pub struct ExUlid(ulid::Ulid);

/// A row of the `jobs` table. Times are in seconds since the Unix epoch.
pub struct TaskRow {
    pub job: CompactType,
    pub id: String,
    pub job_type: String,
    pub status: String,
    pub attempts: usize,
    pub max_attempts: Option<usize>,
    pub run_at: Option<i64>,
    pub last_result: Option<Value>,
    pub lock_at: Option<i64>,
    pub lock_by: Option<String>,
    pub done_at: Option<i64>,
    pub priority: Option<usize>,
    pub metadata: JsonMap<String, Value>,
    pub idempotency_key: Option<String>,
}

/// What the database keeps of a task besides its arguments and its schedule.
pub struct PgContext {
    pub max_attempts: i32,
    pub last_result: Option<Value>,
    pub lock_at: Option<i64>,
    pub lock_by: Option<String>,
    pub done_at: Option<i64>,
    pub priority: i32,
    pub queue: Option<String>,
    pub meta: JsonMap<String, Value>,
}

/// All of a task but its arguments.
pub struct Parts {
    pub task_id: Option<PgTaskId>,
    pub attempt: usize,
    pub status: String,
    pub run_at: u64,
    pub idempotency_key: Option<String>,
    pub ctx: PgContext,
}

/// A task, with arguments in the form `Args`.
pub struct PgTask<Args> {
    pub args: Args,
    pub parts: Parts,
}

/// First second that a date of `chrono` can hold: the start of the year -262143.
pub const FIRST_SECOND: i64 = -8334601228800;

/// Last second that a date of `chrono` can hold: the end of the year 262142.
pub const LAST_SECOND: i64 = 8210266876799;

/// Whether a time, where there is one, is within the calendar.
pub open spec fn in_calendar(time: Option<i64>) -> bool {
    time matches Some(secs) ==> FIRST_SECOND <= secs <= LAST_SECOND
}

/// The names that a task's status has in the database.
pub open spec fn is_status(name: Seq<char>) -> bool {
    ||| name == "Pending"@
    ||| name == "Queued"@
    ||| name == "Running"@
    ||| name == "Done"@
    ||| name == "Failed"@
    ||| name == "Killed"@
}

impl TaskRow {
    /// A row's times are within the calendar.
    pub open spec fn wf(&self) -> bool {
        &&& in_calendar(self.run_at)
        &&& in_calendar(self.lock_at)
        &&& in_calendar(self.done_at)
    }

    /// The task that the row stands for, once its identifier and schedule are read.
    pub open spec fn task(&self, id: PgTaskId, run_at: i64) -> PgTask<CompactType> {
        PgTask {
            args: self.job,
            parts: Parts {
                task_id: Some(id),
                attempt: self.attempts,
                status: self.status,
                run_at: run_at as u64,
                idempotency_key: self.idempotency_key,
                ctx: PgContext {
                    max_attempts: (match self.max_attempts {
                        Some(n) => n,
                        None => 25,
                    }) as i32,
                    last_result: self.last_result,
                    lock_at: self.lock_at,
                    lock_by: self.lock_by,
                    done_at: self.done_at,
                    priority: (match self.priority {
                        Some(n) => n,
                        None => 0,
                    }) as i32,
                    queue: Some(self.job_type),
                    meta: self.metadata,
                },
            },
        }
    }

    /// What turning the row into a task gives: the task, or the text of the first fault found,
    /// looking at the status, the identifier and the schedule in this order.
    pub open spec fn outcome(&self) -> Result<PgTask<CompactType>, Seq<char>> {
        if !is_status(self.status@) {
            Err("Decode error: Unknown state: "@ + self.status@)
        } else {
            match parsed_id(self.id@) {
                Err(reason) => Err("Decode error: could not decode task_id: `"@ + reason + "`"@),
                Ok(ulid) => match self.run_at {
                    None => Err("Column not found: run_at"@),
                    Some(secs) => Ok(self.task(PgTaskId { ulid }, secs)),
                },
            }
        }
    }
}

/// What a task of `apalis_core` holds.
pub uninterp spec fn sql_task(task: Task<Vec<u8>, SqlContext<()>, Ulid>) -> PgTask<Vec<u8>>;

/// Calls `try_into_task_compact` of `apalis_sql`'s `TaskRow` on the row's values. It fails on a
/// status that it does not know, on an identifier that is no ULID and on a missing schedule, in
/// this order and with these texts; else the task holds the row's values, with a default for
/// the numbers that the row leaves out and the numbers cut to the width of the context's.
#[verifier::external_body]
fn row_try_into_task(row: TaskRow) -> (task: Result<Task<Vec<u8>, SqlContext<()>, Ulid>, String>)
    requires
        row.wf(),
    ensures
        match (row.outcome(), task) {
            (Ok(own), Ok(t)) => sql_task(t) == own,
            (Err(text), Err(s)) => s@ == text,
            _ => false,
        },
{
    let [run_at, lock_at, done_at] =
        [row.run_at, row.lock_at, row.done_at].map(|t| t.map(DateTime::from_unix_timestamp));
    let TaskRow { job, id, job_type, status, attempts, max_attempts, .. } = row;
    let TaskRow { last_result, lock_by, priority, idempotency_key, .. } = row;
    let metadata = Some(Value::Object(row.metadata));
    let row = apalis_sql::TaskRow {
        job, id, job_type, status, attempts, max_attempts, run_at, last_result, lock_at,
        lock_by, done_at, priority, metadata, idempotency_key,
    };
    row.try_into_task_compact().map_err(|e| e.to_string())
}

/// Reads the public parts of `apalis_core`'s `Task`, through the getters of its `TaskId`,
/// `Attempt`, `AtomicStatus` and `apalis_sql`'s `SqlContext`.
#[verifier::external_body]
fn task_parts(task: Task<Vec<u8>, SqlContext<()>, Ulid>) -> (own: PgTask<Vec<u8>>)
    ensures
        own == sql_task(task),
{
    let (args, p) = task.take();
    let c = p.ctx;
    let ctx = PgContext {
        max_attempts: c.max_attempts(), last_result: c.last_result().clone(),
        lock_at: *c.lock_at(), lock_by: c.lock_by().clone(), done_at: *c.done_at(),
        priority: c.priority(), queue: c.queue().clone(), meta: c.meta().clone(),
    };
    let parts = Parts {
        task_id: p.task_id.map(|t| PgTaskId { ulid: t.inner().0 }), run_at: p.run_at,
        attempt: p.attempt.current(), status: p.status.load().to_string(),
        idempotency_key: p.idempotency_key, ctx,
    };
    PgTask { args, parts }
}

impl TaskRow {
    /// Turns the row into a task with its arguments as stored.
    pub fn try_into_task_compact(self) -> (task: Result<PgTask<CompactType>, String>)
        requires
            self.wf(),
        ensures
            match (self.outcome(), task) {
                (Ok(own), Ok(t)) => t == own,
                (Err(text), Err(s)) => s@ == text,
                _ => false,
            },
    {
        match row_try_into_task(self) {
            Ok(task) => Ok(task_parts(task)),
            Err(text) => Err(text),
        }
    }
}

/// The task of a row that was looked up by an identifier's text carries that identifier.
pub proof fn row_found_by_id_carries_it(row: TaskRow, id: PgTaskId)
    requires
        row.id@ == id_text(id.ulid),
    ensures
        row.outcome() matches Ok(task) ==> task.parts.task_id == Some(id),
        is_status(row.status@) && row.run_at is Some ==> row.outcome() is Ok,
{
    id_text_reads_back(id);
}

impl<Args> PgTask<Args> {
    /// Replaces the arguments by what `f` makes of them, or gives up with `f`'s error.
    pub fn try_map<NewArgs, E, F: FnOnce(Args) -> Result<NewArgs, E>>(self, f: F) -> (task:
        Result<PgTask<NewArgs>, E>)
        requires
            f.requires((self.args,)),
        ensures
            match task {
                Ok(t) => f.ensures((self.args,), Ok(t.args)) && t.parts == self.parts,
                Err(e) => f.ensures((self.args,), Err(e)),
            },
    {
        match f(self.args) {
            Ok(args) => Ok(PgTask { args, parts: self.parts }),
            Err(e) => Err(e),
        }
    }
}

/// The task of a row carries what the row holds, each value as it stands there: numbers are cut
/// to the width of the context's, and those that the row leaves out are 25 and 0.
pub proof fn task_carries_the_row(row: TaskRow)
    ensures
        row.outcome() matches Ok(task) ==> {
            &&& task.args == row.job
            &&& task.parts.attempt == row.attempts
            &&& task.parts.status == row.status
            &&& task.parts.idempotency_key == row.idempotency_key
            &&& row.run_at matches Some(at) && task.parts.run_at == at as u64
            &&& task.parts.task_id matches Some(id) && parsed_id(row.id@) == Ok::<u128, Seq<char>>(
                id.ulid,
            )
            &&& row.max_attempts matches Some(n) ==> task.parts.ctx.max_attempts == n as i32
            &&& row.max_attempts is None ==> task.parts.ctx.max_attempts == 25
            &&& row.priority matches Some(n) ==> task.parts.ctx.priority == n as i32
            &&& row.priority is None ==> task.parts.ctx.priority == 0
            &&& task.parts.ctx.last_result == row.last_result
            &&& task.parts.ctx.lock_at == row.lock_at
            &&& task.parts.ctx.lock_by == row.lock_by
            &&& task.parts.ctx.done_at == row.done_at
            &&& task.parts.ctx.queue == Some(row.job_type)
            &&& task.parts.ctx.meta == row.metadata
        },
{
}

/// Which rows stand for a task, and what is said of the others: the status is one of six names,
/// the identifier can be read and there is a schedule; the first of these that fails is told.
pub proof fn row_is_refused_for_its_first_fault(row: TaskRow)
    ensures
        ({
            let known = row.status@ == "Pending"@ || row.status@ == "Queued"@ || row.status@
                == "Running"@ || row.status@ == "Done"@ || row.status@ == "Failed"@ || row.status@
                == "Killed"@;
            &&& row.outcome() is Ok <==> known && parsed_id(row.id@) is Ok && row.run_at is Some
            &&& !known ==> row.outcome() == Err::<PgTask<CompactType>, Seq<char>>(
                "Decode error: Unknown state: "@ + row.status@,
            )
            &&& known ==> (parsed_id(row.id@) matches Err(reason) ==> row.outcome() == Err::<
                PgTask<CompactType>,
                Seq<char>,
            >("Decode error: could not decode task_id: `"@ + reason + "`"@))
            &&& known && parsed_id(row.id@) is Ok && row.run_at is None ==> row.outcome() == Err::<
                PgTask<CompactType>,
                Seq<char>,
            >("Column not found: run_at"@)
        }),
{
}

/// Every row whose times a date can hold is well formed.
pub proof fn rows_within_the_calendar(row: TaskRow)
    ensures
        row.wf() <==> {
            &&& row.run_at matches Some(at) ==> -8334601228800 <= at <= 8210266876799
            &&& row.lock_at matches Some(at) ==> -8334601228800 <= at <= 8210266876799
            &&& row.done_at matches Some(at) ==> -8334601228800 <= at <= 8210266876799
        },
{
}

} // verus!
