use std::sync::Arc;

use apalis_postgres::{
    batch_items, decoded_item, registration_item, row_item, Config, InsertEvent, Item, PgNotify,
    PgTask, PgTaskId, PollError, PostgresStorage, TaskRow,
};

type Compact = Item<Vec<u8>, &'static str, String>;

fn row(ulid: u128, job: &str) -> TaskRow {
    TaskRow {
        job: job.as_bytes().to_vec(),
        id: PgTaskId { ulid }.to_string(),
        job_type: "email".to_string(),
        status: "Queued".to_string(),
        attempts: 3,
        max_attempts: Some(5),
        run_at: Some(1_700_000_000),
        last_result: None,
        lock_at: Some(1_700_000_001),
        lock_by: Some("worker-1".to_string()),
        done_at: Some(-5),
        priority: Some(2),
        metadata: serde_json::Map::new(),
        idempotency_key: Some("once".to_string()),
    }
}

fn task_of(item: Compact) -> PgTask<Vec<u8>> {
    match item {
        Ok(Some(task)) => task,
        _ => panic!("no task"),
    }
}

#[test]
fn row_becomes_its_task() {
    let task = task_of(row_item(Ok(row(77, "[1]"))));
    assert_eq!(task.args, b"[1]".to_vec());
    let parts = task.parts;
    assert_eq!(parts.task_id, Some(PgTaskId { ulid: 77 }));
    assert_eq!(parts.attempt, 3);
    assert_eq!(parts.status, "Queued");
    assert_eq!(parts.run_at, 1_700_000_000);
    assert_eq!(parts.idempotency_key, Some("once".to_string()));
    assert_eq!(parts.ctx.max_attempts, 5);
    assert_eq!(parts.ctx.priority, 2);
    assert_eq!(parts.ctx.lock_at, Some(1_700_000_001));
    assert_eq!(parts.ctx.lock_by, Some("worker-1".to_string()));
    assert_eq!(parts.ctx.done_at, Some(-5));
    assert_eq!(parts.ctx.queue, Some("email".to_string()));
    assert!(parts.ctx.meta.is_empty());
    assert!(parts.ctx.last_result.is_none());
}

#[test]
fn numbers_that_a_row_leaves_out() {
    let mut bare = row(1, "");
    bare.max_attempts = None;
    bare.priority = None;
    bare.lock_at = None;
    bare.lock_by = None;
    bare.done_at = None;
    bare.idempotency_key = None;
    let task = task_of(row_item(Ok(bare)));
    assert_eq!(task.parts.ctx.max_attempts, 25);
    assert_eq!(task.parts.ctx.priority, 0);
    assert_eq!(task.parts.ctx.lock_at, None);
    assert_eq!(task.parts.ctx.lock_by, None);
    assert_eq!(task.parts.ctx.done_at, None);
    assert_eq!(task.parts.idempotency_key, None);
}

#[test]
fn numbers_are_cut_to_width() {
    let mut wide = row(1, "");
    wide.max_attempts = Some(0x8000_0000);
    wide.priority = Some(u32::MAX as usize);
    wide.run_at = Some(-1);
    let task = task_of(row_item(Ok(wide)));
    assert_eq!(task.parts.ctx.max_attempts, i32::MIN);
    assert_eq!(task.parts.ctx.priority, -1);
    assert_eq!(task.parts.run_at, u64::MAX);
}

#[test]
fn times_at_the_ends_of_the_calendar() {
    let mut early = row(1, "");
    early.lock_at = Some(-8334601228800);
    early.done_at = Some(8210266876799);
    let task = task_of(row_item(Ok(early)));
    assert_eq!(task.parts.ctx.lock_at, Some(-8334601228800));
    assert_eq!(task.parts.ctx.done_at, Some(8210266876799));
}

#[test]
fn every_status_is_known() {
    for status in ["Pending", "Queued", "Running", "Done", "Failed", "Killed"] {
        let mut r = row(1, "");
        r.status = status.to_string();
        assert_eq!(task_of(row_item(Ok(r))).parts.status, status);
    }
}

fn protocol_text(row: TaskRow) -> String {
    let item: Compact = row_item(Ok(row));
    match item {
        Err(PollError::Protocol(text)) => text,
        _ => panic!("no protocol error"),
    }
}

#[test]
fn rows_that_are_no_tasks() {
    let mut r = row(1, "");
    r.status = "pending".to_string();
    assert_eq!(protocol_text(r), "Decode error: Unknown state: pending");
    let mut r = row(1, "");
    r.id = "1".to_string();
    assert_eq!(protocol_text(r), "Decode error: could not decode task_id: `invalid length`");
    let mut r = row(1, "");
    r.run_at = None;
    assert_eq!(protocol_text(r), "Column not found: run_at");
}

#[test]
fn first_fault_of_a_row_is_told() {
    let mut r = row(1, "");
    r.status = "".to_string();
    r.id = "1".to_string();
    r.run_at = None;
    assert_eq!(protocol_text(r), "Decode error: Unknown state: ");
    let mut r = row(1, "");
    r.id = "?".to_string();
    r.run_at = None;
    assert_eq!(protocol_text(r), "Decode error: could not decode task_id: `invalid length`");
}

#[test]
fn batch_yields_an_item_for_each_row() {
    let mut broken = row(2, "");
    broken.run_at = None;
    let rows = vec![Ok(row(1, "a")), Ok(broken), Err("lost row"), Ok(row(3, "b"))];
    let items: Vec<Compact> = batch_items(Ok((rows, Ok(()))));
    assert_eq!(items.len(), 4);
    assert!(matches!(&items[0], Ok(Some(t)) if t.parts.task_id == Some(PgTaskId { ulid: 1 })));
    assert!(matches!(&items[1], Err(PollError::Protocol(_))));
    assert!(matches!(&items[2], Err(PollError::Sql("lost row"))));
    assert!(matches!(&items[3], Ok(Some(t)) if t.args == b"b".to_vec()));
}

#[test]
fn batch_without_rows_yields_nothing() {
    let items: Vec<Compact> = batch_items(Ok((vec![], Ok(()))));
    assert!(items.is_empty());
}

#[test]
fn batch_that_did_not_begin_yields_its_error() {
    let items: Vec<Compact> = batch_items(Err("no connection"));
    assert_eq!(items.len(), 1);
    assert!(matches!(&items[0], Err(PollError::Sql("no connection"))));
}

#[test]
fn batch_that_was_not_committed_yields_no_task() {
    let rows = vec![Ok(row(1, "a")), Ok(row(2, "b"))];
    let items: Vec<Compact> = batch_items(Ok((rows, Err("rolled back"))));
    assert_eq!(items.len(), 1);
    assert!(matches!(&items[0], Err(PollError::Sql("rolled back"))));
}

#[test]
fn registration_gives_no_task() {
    let item: Compact = registration_item(Ok(()));
    assert!(matches!(item, Ok(None)));
    let item: Compact = registration_item(Err("refused"));
    assert!(matches!(item, Err(PollError::Sql("refused"))));
}

#[test]
fn announced_task_comes_out() {
    let storage: PostgresStorage<u32, &str, Vec<u8>, (), PgNotify> =
        PostgresStorage::<u32, &str>::new_with_notify(&Arc::new("pool"), &Config::new("email"))
            .with_codec();
    let fetch = storage.poll_with_notify(&"w".to_string()).lazy;
    let event = InsertEvent { job_type: "email".to_string(), id: PgTaskId { ulid: 1 << 100 } };
    let id = fetch.source.accept(Some(event)).unwrap();
    let query = fetch.query(vec![id]);
    let mut found = row(0, "[]");
    found.id = query.ids[0].clone();
    let task = task_of(row_item(Ok(found)));
    assert_eq!(task.parts.task_id, Some(PgTaskId { ulid: 1 << 100 }));
    assert_eq!(task.args, b"[]".to_vec());
}

fn number(bytes: Vec<u8>) -> Result<u32, String> {
    serde_json::from_slice(&bytes).map_err(|e| e.to_string())
}

#[test]
fn arguments_are_decoded() {
    let compact: Compact = row_item(Ok(row(9, "42")));
    let item = decoded_item(compact, number);
    match item {
        Ok(Some(task)) => {
            assert_eq!(task.args, 42);
            assert_eq!(task.parts.task_id, Some(PgTaskId { ulid: 9 }));
            assert_eq!(task.parts.attempt, 3);
        }
        _ => panic!("no task"),
    }
}

#[test]
fn arguments_that_cannot_be_decoded() {
    let compact: Compact = row_item(Ok(row(9, "forty-two")));
    let item = decoded_item(compact, number);
    match item {
        Err(PollError::Decode(text)) => assert_eq!(Err(text), number(b"forty-two".to_vec())),
        _ => panic!("no decode error"),
    }
}

#[test]
fn items_without_task_are_not_decoded() {
    let none: Compact = Ok(None);
    assert!(matches!(decoded_item(none, number), Ok(None)));
    let failed: Compact = Err(PollError::Sql("gone"));
    assert!(matches!(decoded_item(failed, number), Err(PollError::Sql("gone"))));
}

#[test]
fn arguments_are_mapped_in_place() {
    let task = task_of(row_item(Ok(row(4, "7"))));
    let mapped = task.try_map(number).map_err(|_| "bad").unwrap();
    assert_eq!(mapped.args, 7);
    assert_eq!(mapped.parts.status, "Queued");
    let task = task_of(row_item(Ok(row(4, "x"))));
    assert!(task.try_map(number).is_err());
}
