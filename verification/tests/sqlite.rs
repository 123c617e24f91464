use noosphere::sqlite::command::{SqliteCommand, SqliteError, SqliteResponse};
use noosphere::sqlite::exchange::{process_message, ExchangeAction, ExchangeEvent, ExchangePhase};
use noosphere::sqlite::key::{key_bytes_to_key, key_from_parts};
use noosphere::sqlite::statement::{create_table, read_value, remove_value, write_value, Statement};
use noosphere::sqlite::store::{
    SqliteClient, SqliteStorage, SqliteStorageInit, SqliteStore, DATABASE_FILE,
};
use noosphere::sqlite::task::{sqlite_task, SqliteTask, TaskAction, TaskEvent};
use rusqlite::{Connection, OptionalExtension};
use std::path::PathBuf;

fn query(db: &Connection, statement: &Statement) -> Result<Option<Vec<u8>>, String> {
    let key: &String = match statement {
        Statement::ReadValue { key, .. } => key,
        _ => panic!("not a query"),
    };
    let mut prepared = db
        .prepare_cached(&statement.sql())
        .map_err(|error| error.to_string())?;
    prepared
        .query_row([key], |row| row.get(0))
        .optional()
        .map_err(|error| error.to_string())
}

fn execute(db: &Connection, statement: &Statement) -> Result<usize, String> {
    let mut prepared = db
        .prepare_cached(&statement.sql())
        .map_err(|error| error.to_string())?;
    match statement {
        Statement::CreateTable { .. } => prepared.execute(()),
        Statement::WriteValue { key, value, .. } => prepared.execute((key, value)),
        Statement::RemoveValue { key, .. } => prepared.execute([key]),
        Statement::ReadValue { .. } => panic!("not a change"),
    }
    .map_err(|error| error.to_string())
}

fn batch(db: &Connection, sql: &str, done: ExchangeEvent<String>) -> ExchangeEvent<String> {
    match db.execute_batch(sql) {
        Ok(()) => done,
        Err(error) => ExchangeEvent::Failed { error: error.to_string() },
    }
}

/// Processes a command on a database.
fn run(db: &Connection, command: SqliteCommand) -> Result<SqliteResponse, String> {
    let mut exchange = process_message::<String>(command);
    loop {
        let event = match exchange.action() {
            ExchangeAction::Begin => batch(db, "BEGIN", ExchangeEvent::Began),
            ExchangeAction::Query { statement } => match query(db, &statement) {
                Ok(value) => ExchangeEvent::Row { value },
                Err(error) => ExchangeEvent::Failed { error },
            },
            ExchangeAction::Execute { statement } => match execute(db, &statement) {
                Ok(_) => ExchangeEvent::Executed,
                Err(error) => ExchangeEvent::Failed { error },
            },
            ExchangeAction::Commit => batch(db, "COMMIT", ExchangeEvent::Committed),
            ExchangeAction::RollBack => batch(db, "ROLLBACK", ExchangeEvent::RolledBack),
            ExchangeAction::Finish => break,
        };
        exchange = exchange.step(event);
    }
    exchange.outcome().unwrap()
}

fn database() -> Connection {
    Connection::open_in_memory().unwrap()
}

fn storage() -> SqliteStorage {
    SqliteStorage::new(SqliteStorageInit::Path(PathBuf::from("data"))).unwrap()
}

/// Opens the store called `name` in a database.
fn store(db: &Connection, name: &str) -> SqliteStore {
    let storage = storage();
    let response = run(db, storage.open_store(name)).unwrap();
    storage.get_store(name, response).unwrap()
}

fn read(db: &Connection, store: &SqliteStore, key: &[u8]) -> Option<Vec<u8>> {
    run(db, store.read(key).unwrap()).unwrap().value().unwrap()
}

fn write(db: &Connection, store: &SqliteStore, key: &[u8], bytes: &[u8]) -> Option<Vec<u8>> {
    run(db, store.write(key, bytes).unwrap()).unwrap().value().unwrap()
}

fn remove(db: &Connection, store: &SqliteStore, key: &[u8]) -> Option<Vec<u8>> {
    run(db, store.remove(key).unwrap()).unwrap().value().unwrap()
}

/// A content identifier with the hash bytes 0 to 31.
fn cid_bytes() -> Vec<u8> {
    let mut bytes = vec![0x01, 0x55, 0x12, 0x20];
    bytes.extend(0..32u8);
    bytes
}

const CID_TEXT: &str = "bafkreiaaaebagbafaydqqcikbmga2dqpcaireeyuculbogazdinryhi6d4";

#[test]
fn key_of_a_content_identifier_is_its_text() {
    assert_eq!(key_bytes_to_key(&cid_bytes()), Ok(CID_TEXT.to_string()));
    let digest = cid::multihash::Multihash::<64>::wrap(0x12, &cid_bytes()[4..]).unwrap();
    let cid = cid::Cid::new_v1(0x55, digest);
    assert_eq!(key_bytes_to_key(&cid.to_bytes()), Ok(cid.to_string()));
}

#[test]
fn key_of_an_old_content_identifier_is_its_text() {
    assert_eq!(
        key_bytes_to_key(&cid_bytes()[2..]),
        Ok("QmNLfbof5rLekrACjeuLk9JmGZD2HDBHCU4z16iYKmx5SE".to_string())
    );
}

#[test]
fn key_that_is_no_content_identifier_is_read_as_utf8() {
    assert_eq!(key_bytes_to_key(b"version"), Ok("version".to_string()));
    assert_eq!(key_bytes_to_key("caf\u{e9}".as_bytes()), Ok("caf\u{e9}".to_string()));
    assert_eq!(key_bytes_to_key(b""), Ok(String::new()));
}

#[test]
fn key_that_is_neither_is_refused() {
    assert_eq!(key_bytes_to_key(&[0xff, 0xfe]), Err(SqliteError::UnserializableKey));
    assert_eq!(
        SqliteError::UnserializableKey.message(),
        "Could not serialize sqlite key."
    );
    assert!(store(&database(), "blocks").read(&[0xff, 0xfe]).is_err());
}

#[test]
fn key_prefers_the_content_identifier() {
    assert_eq!(key_from_parts(Some("cid".to_string()), b"text"), Ok("cid".to_string()));
    assert_eq!(key_from_parts(None, b"text"), Ok("text".to_string()));
    assert_eq!(key_from_parts(None, &[0x80]), Err(SqliteError::UnserializableKey));
}

#[test]
fn key_goes_by_its_text() {
    let keys: [&[u8]; 4] = [&cid_bytes(), &cid_bytes()[2..], b"version", "caf\u{e9}".as_bytes()];
    for key in keys {
        let text = key_bytes_to_key(key).unwrap();
        assert_eq!(key_bytes_to_key(text.as_bytes()), Ok(text));
    }
}

#[test]
fn statements_have_their_texts() {
    assert_eq!(
        create_table("blocks"),
        "CREATE TABLE IF NOT EXISTS blocks (
                        _id INTEGER PRIMARY KEY,
                        key TEXT NOT NULL UNIQUE,
                        value BLOB
                )"
    );
    assert_eq!(read_value("blocks"), "SELECT VALUE FROM blocks WHERE key = $1");
    assert_eq!(
        write_value("blocks"),
        "INSERT INTO blocks (key, value)\n            VALUES($1, $2) \n            \
         ON CONFLICT(key) \n            DO UPDATE SET value=excluded.value"
    );
    assert_eq!(remove_value("blocks"), "DELETE FROM blocks WHERE key = $1");
}

#[test]
fn read_gives_back_the_write() {
    let db = database();
    let store = store(&db, "blocks");
    assert_eq!(read(&db, &store, b"key"), None);
    assert_eq!(write(&db, &store, b"key", &[1, 2, 3]), None);
    assert_eq!(read(&db, &store, b"key"), Some(vec![1, 2, 3]));
    assert_eq!(read(&db, &store, b"other"), None);
    assert_eq!(write(&db, &store, b"empty", &[]), None);
    assert_eq!(read(&db, &store, b"empty"), Some(vec![]));
    assert_eq!(write(&db, &store, &cid_bytes(), &[4]), None);
    assert_eq!(read(&db, &store, &cid_bytes()), Some(vec![4]));
    assert_eq!(read(&db, &store, CID_TEXT.as_bytes()), Some(vec![4]));
}

#[test]
fn either_form_of_a_key_reads_the_write() {
    let db = database();
    let store = store(&db, "blocks");
    assert_eq!(write(&db, &store, &cid_bytes(), &[1]), None);
    assert_eq!(read(&db, &store, CID_TEXT.as_bytes()), Some(vec![1]));
    assert_eq!(write(&db, &store, CID_TEXT.as_bytes(), &[2]), Some(vec![1]));
    assert_eq!(read(&db, &store, &cid_bytes()), Some(vec![2]));
    assert!(store.read(&[0xff]).is_err());
}

#[test]
fn answered_write_survives_reopening() {
    let address = "file:reopening?mode=memory&cache=shared";
    let keeper = Connection::open(address).unwrap();
    let first = Connection::open(address).unwrap();
    let written = store(&first, "blocks");
    assert_eq!(write(&first, &written, b"key", &[1]), None);
    drop(first);
    let second = Connection::open(address).unwrap();
    let again = store(&second, "blocks");
    assert_eq!(read(&second, &again, b"key"), Some(vec![1]));
    drop(second);
    drop(keeper);
}

#[test]
fn closing_loses_what_is_not_committed() {
    let address = "file:closing?mode=memory&cache=shared";
    let keeper = Connection::open(address).unwrap();
    let first = Connection::open(address).unwrap();
    let written = store(&first, "blocks");
    let mut exchange = process_message::<String>(written.write(b"key", &[1]).unwrap());
    first.execute_batch("BEGIN").unwrap();
    exchange = exchange.step(ExchangeEvent::Began).step(ExchangeEvent::Row { value: None });
    match exchange.action() {
        ExchangeAction::Execute { statement } => {
            execute(&first, &statement).unwrap();
        }
        _ => panic!("no change"),
    }
    first.flush_prepared_statement_cache();
    drop(first);
    let second = Connection::open(address).unwrap();
    assert_eq!(read(&second, &store(&second, "blocks"), b"key"), None);
    drop(keeper);
}

#[test]
fn tables_go_by_either_case() {
    let db = database();
    let lower = store(&db, "blocks");
    let upper = store(&db, "BLOCKS");
    assert_eq!(write(&db, &upper, b"key", &[1]), None);
    assert_eq!(read(&db, &lower, b"key"), Some(vec![1]));
    assert_eq!(write(&db, &lower, b"key", &[2]), Some(vec![1]));
    assert_eq!(remove(&db, &upper, b"key"), Some(vec![2]));
    let accented = store(&db, "caf\u{e9}");
    let other = store(&db, "caf\u{c9}");
    assert_eq!(write(&db, &accented, b"key", &[3]), None);
    assert_eq!(read(&db, &other, b"key"), None);
}

#[test]
fn command_about_a_missing_table_fails() {
    let db = database();
    let client = SqliteClient::new(PathBuf::new());
    assert!(run(&db, client.read("missing", "key".to_string())).is_err());
    assert!(run(&db, client.write("missing", "key".to_string(), vec![])).is_err());
    assert!(run(&db, client.remove("missing", "key".to_string())).is_err());
    assert!(run(&db, client.flush("missing")).is_ok());
    assert!(db.is_autocommit());
}

#[test]
fn changes_answer_with_the_previous_value() {
    let db = database();
    let store = store(&db, "blocks");
    assert_eq!(write(&db, &store, b"key", &[1]), None);
    assert_eq!(write(&db, &store, b"key", &[2]), Some(vec![1]));
    assert_eq!(remove(&db, &store, b"key"), Some(vec![2]));
    assert_eq!(remove(&db, &store, b"key"), None);
}

#[test]
fn read_finds_nothing_after_removal() {
    let db = database();
    let store = store(&db, "blocks");
    write(&db, &store, b"key", &[1]);
    write(&db, &store, b"kept", &[2]);
    remove(&db, &store, b"key");
    assert_eq!(read(&db, &store, b"key"), None);
    assert_eq!(read(&db, &store, b"kept"), Some(vec![2]));
}

#[test]
fn keys_keep_their_last_value() {
    let db = database();
    let first = store(&db, "first");
    let second = store(&db, "second");
    write(&db, &first, b"key", &[1]);
    write(&db, &second, b"key", &[2]);
    write(&db, &first, b"other", &[3]);
    remove(&db, &second, b"other");
    write(&db, &second, b"key", &[4]);
    assert_eq!(read(&db, &first, b"key"), Some(vec![1]));
    assert_eq!(read(&db, &second, b"key"), Some(vec![4]));
}

#[test]
fn opening_a_store_keeps_its_values() {
    let db = database();
    let first = store(&db, "blocks");
    write(&db, &first, b"key", &[1]);
    let again = store(&db, "blocks");
    assert!(run(&db, again.flush()).unwrap().empty().is_ok());
    assert_eq!(read(&db, &again, b"key"), Some(vec![1]));
}

#[test]
fn failed_command_changes_nothing() {
    let db = database();
    let store = store(&db, "blocks");
    write(&db, &store, b"key", &[1]);
    let missing = SqliteCommand::Write {
        table_name: "missing".to_string(),
        key: "key".to_string(),
        value: vec![2],
    };
    assert!(run(&db, missing).is_err());
    assert!(db.is_autocommit());
    assert_eq!(read(&db, &store, b"key"), Some(vec![1]));
}

#[test]
fn failure_after_the_change_rolls_it_back() {
    let db = database();
    let store = store(&db, "blocks");
    let mut exchange = process_message::<String>(store.write(b"key", &[1]).unwrap());
    db.execute_batch("BEGIN").unwrap();
    exchange = exchange.step(ExchangeEvent::Began);
    exchange = exchange.step(ExchangeEvent::Row { value: None });
    match exchange.action() {
        ExchangeAction::Execute { statement } => {
            execute(&db, &statement).unwrap();
        }
        _ => panic!("no change"),
    }
    exchange = exchange.step(ExchangeEvent::Executed);
    assert!(matches!(exchange.action(), ExchangeAction::Commit));
    exchange = exchange.step(ExchangeEvent::Failed { error: "disk full".to_string() });
    assert!(matches!(exchange.action(), ExchangeAction::RollBack));
    db.execute_batch("ROLLBACK").unwrap();
    exchange = exchange.step(ExchangeEvent::RolledBack);
    match exchange.outcome() {
        Some(Err(error)) => assert_eq!(error, "disk full"),
        _ => panic!("no error"),
    }
    assert_eq!(read(&db, &store, b"key"), None);
}

#[test]
fn failed_begin_needs_no_rollback() {
    let exchange = process_message::<u8>(SqliteClient::new(PathBuf::new()).create("blocks"))
        .step(ExchangeEvent::Failed { error: 7 });
    assert!(matches!(exchange.outcome(), Some(Err(7))));
}

#[test]
fn events_that_answer_nothing_change_nothing() {
    let exchange = process_message::<u8>(SqliteClient::new(PathBuf::new()).create("blocks"))
        .step(ExchangeEvent::Committed);
    assert!(matches!(exchange.phase, ExchangePhase::Begin));
    assert!(exchange.outcome().is_none());
}

#[test]
fn flush_is_answered_at_once() {
    let exchange = process_message::<u8>(SqliteClient::new(PathBuf::new()).flush("blocks"));
    assert!(matches!(exchange.outcome(), Some(Ok(SqliteResponse::Empty))));
}

#[test]
fn responses_of_the_wrong_kind_are_refused() {
    assert_eq!(SqliteResponse::Empty.value(), Err(SqliteError::InvalidResponse));
    assert_eq!(SqliteResponse::Value(None).empty(), Err(SqliteError::InvalidResponse));
    assert_eq!(SqliteError::InvalidResponse.message(), "Invalid sqlite response.");
    let storage = storage();
    assert!(storage.get_block_store("blocks", SqliteResponse::Value(None)).is_err());
    assert!(storage.get_key_value_store("blocks", SqliteResponse::Value(None)).is_err());
}

#[test]
fn stores_share_the_client_of_their_storage() {
    let storage = storage();
    let blocks = storage.get_block_store("blocks", SqliteResponse::Empty).unwrap();
    let keys = storage.get_key_value_store("keys", SqliteResponse::Empty).unwrap();
    assert_eq!(blocks.client.path, PathBuf::from("data"));
    assert_eq!(keys.client.path, PathBuf::from("data"));
    assert_eq!(blocks.table_name, "blocks");
    assert_eq!(keys.table_name, "keys");
    assert_eq!(storage.clone().client.path, PathBuf::from("data"));
    assert_eq!(keys.clone().client.path, PathBuf::from("data"));
    assert_eq!(keys.clone().table_name, "keys");
}

fn opened_task() -> SqliteTask<String> {
    let task = sqlite_task::<String>(PathBuf::from("data"));
    match task.action() {
        TaskAction::CreateDirectory { path } => assert_eq!(path, &PathBuf::from("data")),
        _ => panic!("no directory"),
    }
    let task = task.step(TaskEvent::DirectoryCreated);
    match task.action() {
        TaskAction::Open { path, file } => {
            assert_eq!(path, &PathBuf::from("data"));
            assert_eq!(file, "database.db");
            assert_eq!(file, DATABASE_FILE);
        }
        _ => panic!("no database"),
    }
    task.step(TaskEvent::Opened)
}

#[test]
fn every_command_is_answered() {
    let db = database();
    let client = SqliteClient::new(PathBuf::from("data"));
    let mut waiting = vec![
        client.read("blocks", "key".to_string()),
        client.write("blocks", "key".to_string(), vec![1]),
        client.create("blocks"),
    ];
    let mut task = opened_task();
    let mut told = Vec::new();
    loop {
        let event = match task.action() {
            TaskAction::Receive => TaskEvent::Received { command: waiting.pop() },
            TaskAction::Process { command } => TaskEvent::Processed {
                result: run(&db, command.clone()),
            },
            TaskAction::Respond { result } => {
                told.push(result.clone().unwrap());
                TaskEvent::Responded
            }
            TaskAction::Finish => break,
            _ => panic!("the database is open"),
        };
        task = task.step(event);
    }
    assert!(matches!(task.outcome(), Some(Ok(()))));
    assert_eq!(told.len(), 3);
    assert!(matches!(told[0], SqliteResponse::Empty));
    assert!(matches!(told[1], SqliteResponse::Value(None)));
    assert_eq!(told.pop().unwrap().value(), Ok(Some(vec![1])));
}

#[test]
fn failed_command_does_not_end_the_sqlite_task() {
    let client = SqliteClient::new(PathBuf::from("data"));
    let task = opened_task()
        .step(TaskEvent::Received { command: Some(client.flush("blocks")) })
        .step(TaskEvent::Processed { result: Err("locked".to_string()) });
    match task.action() {
        TaskAction::Respond { result: Err(error) } => assert_eq!(error, "locked"),
        _ => panic!("no response"),
    }
    assert!(matches!(task.step(TaskEvent::Responded).action(), TaskAction::Receive));
}

#[test]
fn database_that_cannot_be_opened_ends_the_task() {
    let task = sqlite_task::<String>(PathBuf::from("data"))
        .step(TaskEvent::DirectoryCreated)
        .step(TaskEvent::Failed { error: "not a database".to_string() });
    assert_eq!(task.outcome(), Some(Err("not a database".to_string())));
    let task = sqlite_task::<String>(PathBuf::from("data"))
        .step(TaskEvent::Failed { error: "read only".to_string() });
    assert_eq!(task.outcome(), Some(Err("read only".to_string())));
}
