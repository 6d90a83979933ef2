use apalis_postgres::{PgTaskId, TaskRow};
use serde_json::Value;

fn row_with_id(id: &str) -> TaskRow {
    TaskRow {
        job: vec![52, 50],
        id: id.to_string(),
        job_type: "email".to_string(),
        status: "Pending".to_string(),
        attempts: 0,
        max_attempts: None,
        run_at: Some(0),
        last_result: None,
        lock_at: None,
        lock_by: None,
        done_at: None,
        priority: None,
        metadata: serde_json::Map::new(),
        idempotency_key: None,
    }
}

fn read_id(text: &str) -> Result<u128, String> {
    match row_with_id(text).try_into_task_compact() {
        Ok(task) => Ok(task.parts.task_id.unwrap().ulid),
        Err(text) => Err(text),
    }
}

#[test]
fn text_of_known_ids() {
    let id = PgTaskId { ulid: 0x41414141414141414141414141414141 };
    assert_eq!(id.to_string(), "21850M2GA1850M2GA1850M2GA1");
    let id = PgTaskId { ulid: 0x4d4e385051444a59454234335a413756 };
    assert_eq!(id.to_string(), "2D9RW50MA499CMAGHM6DD42DTP");
    assert_eq!(PgTaskId { ulid: 0 }.to_string(), "00000000000000000000000000");
    assert_eq!(PgTaskId { ulid: u128::MAX }.to_string(), "7ZZZZZZZZZZZZZZZZZZZZZZZZZ");
}

#[test]
fn text_uses_every_symbol() {
    let mut ulid: u128 = 0;
    for digit in 0..25u128 {
        ulid = ulid * 32 + digit;
    }
    assert_eq!(PgTaskId { ulid }.to_string(), "00123456789ABCDEFGHJKMNPQR");
    let mut ulid: u128 = 0;
    for digit in 7..32u128 {
        ulid = ulid * 32 + digit;
    }
    assert_eq!(PgTaskId { ulid }.to_string(), "0789ABCDEFGHJKMNPQRSTVWXYZ");
}

#[test]
fn text_reads_back() {
    for ulid in [0, 1, 31, 32, 0x0123456789abcdef0123456789abcdef, u128::MAX - 1, u128::MAX] {
        assert_eq!(read_id(&PgTaskId { ulid }.to_string()), Ok(ulid));
    }
}

#[test]
fn different_ids_have_different_texts() {
    let a = PgTaskId { ulid: 5 };
    let b = PgTaskId { ulid: 5 + (1 << 127) };
    assert_ne!(a.to_string(), b.to_string());
    assert_eq!(a.to_string(), PgTaskId { ulid: 5 }.to_string());
}

#[test]
fn small_letters_are_read() {
    assert_eq!(read_id("2d9rw50ma499cmaghm6dd42dtp"), Ok(0x4d4e385051444a59454234335a413756));
}

#[test]
fn bits_beyond_the_number_are_lost() {
    assert_eq!(read_id("ZZZZZZZZZZZZZZZZZZZZZZZZZZ"), Ok(u128::MAX));
    assert_eq!(read_id("80000000000000000000000001"), Ok(1));
}

#[test]
fn texts_that_are_no_ids() {
    let length = "Decode error: could not decode task_id: `invalid length`".to_string();
    let character = "Decode error: could not decode task_id: `invalid character`".to_string();
    assert_eq!(read_id(""), Err(length.clone()));
    assert_eq!(read_id("2D9RW50MA499CMAGHM6DD42DT"), Err(length.clone()));
    assert_eq!(read_id("2D9RW50MA499CMAGHM6DD42DTPP"), Err(length.clone()));
    for letter in ["I", "L", "O", "U", "i", "l", "o", "u", "[", " "] {
        let text = format!("2D9RW50{}A499CMAGHM6DD42DTP", letter);
        assert_eq!(read_id(&text), Err(character.clone()));
    }
    // Lengths are counted in bytes: this text has 26 of them, and 25 characters.
    assert_eq!(read_id("2D9RW50MA499CMAGHM6DD42D\u{e9}"), Err(character));
    // And this one has 26 characters.
    assert_eq!(read_id("2D9RW50MA499CMAGHM6DD42DT\u{e9}"), Err(length));
}

#[test]
fn row_keeps_its_json() {
    let mut row = row_with_id("00000000000000000000000001");
    row.metadata.insert("tenant".to_string(), Value::from("acme"));
    row.last_result = Some(Value::from(7));
    let task = row.try_into_task_compact().unwrap();
    assert_eq!(task.parts.ctx.meta.get("tenant"), Some(&Value::from("acme")));
    assert_eq!(task.parts.ctx.meta.len(), 1);
    assert_eq!(task.parts.ctx.last_result, Some(Value::from(7)));
}
