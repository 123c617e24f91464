//! A model of what SQLite does with the statements of [`super::statement`].
//!
//! A database holds named tables, and a table maps keys to values. As in SQLite,
//! names of tables that differ only in the case of their ASCII letters are
//! names of one table.
//!
//! The name of a table is put into a statement as it stands, so one that is
//! quoted or qualified may be another way to write a plain name. Where a law
//! tells tables apart, it asks for plain names.

use std::path::PathBuf;
use vstd::prelude::*;

use super::command::{CommandState, ResponseState};
use super::exchange::{ExchangeAction, ExchangeEvent};
use super::statement::Statement;

verus! {

/// A character, in lower case if it is an ASCII letter.
pub open spec fn lower(letter: char) -> char {
    if 'A' <= letter <= 'Z' {
        (letter as int - 'A' as int + 'a' as int) as char
    } else {
        letter
    }
}

/// The name of a table with its ASCII letters in lower case.
pub open spec fn folded(table_name: Seq<char>) -> Seq<char> {
    table_name.map_values(|letter: char| lower(letter))
}

/// Whether a character can stand in a plain name.
pub open spec fn is_name_char(letter: char) -> bool {
    ||| 'a' <= lower(letter) <= 'z'
    ||| '0' <= letter <= '9'
    ||| letter == '_'
    ||| letter == '$'
    ||| letter as int >= 0x80
}

/// Whether the name of a table is a plain identifier, and not that of one of
/// the two functions of SQLite that can be read like a table of keys and
/// values.
pub open spec fn is_plain(table_name: Seq<char>) -> bool {
    &&& table_name.len() > 0
    &&& !('0' <= table_name[0] <= '9') && table_name[0] != '$'
    &&& forall|i: int| 0 <= i < table_name.len() ==> is_name_char(#[trigger] table_name[i])
    &&& folded(table_name) != "json_each"@
    &&& folded(table_name) != "json_tree"@
}

/// The tables of a database, by their folded names, each a map from keys to
/// values.
pub type Tables = Map<Seq<char>, Map<Seq<char>, Seq<u8>>>;

/// Whether there is a table `table_name`.
pub open spec fn has_table(tables: Tables, table_name: Seq<char>) -> bool {
    tables.contains_key(folded(table_name))
}

/// The value of `key` in the table `table_name`.
pub open spec fn lookup(tables: Tables, table_name: Seq<char>, key: Seq<char>) -> Option<Seq<u8>> {
    if has_table(tables, table_name) && tables[folded(table_name)].contains_key(key) {
        Some(tables[folded(table_name)][key])
    } else {
        None
    }
}

/// The tables after `key` in `table_name` was set to `value`.
pub open spec fn with_value(
    tables: Tables,
    table_name: Seq<char>,
    key: Seq<char>,
    value: Seq<u8>,
) -> Tables {
    tables.insert(folded(table_name), tables[folded(table_name)].insert(key, value))
}

/// The tables after `key` was deleted from `table_name`.
pub open spec fn without_value(tables: Tables, table_name: Seq<char>, key: Seq<char>) -> Tables {
    tables.insert(folded(table_name), tables[folded(table_name)].remove(key))
}

/// The tables with a table `table_name`, which is empty if it was not there.
pub open spec fn with_table(tables: Tables, table_name: Seq<char>) -> Tables {
    if has_table(tables, table_name) {
        tables
    } else {
        tables.insert(folded(table_name), Map::empty())
    }
}

/// The table that a statement is about is there, or the statement makes it.
pub open spec fn runnable(tables: Tables, statement: Statement) -> bool {
    match statement {
        Statement::CreateTable { .. } => true,
        Statement::ReadValue { table_name, .. } => has_table(tables, table_name@),
        Statement::WriteValue { table_name, .. } => has_table(tables, table_name@),
        Statement::RemoveValue { table_name, .. } => has_table(tables, table_name@),
    }
}

/// The tables after a statement has run.
pub open spec fn statement_effect(tables: Tables, statement: Statement) -> Tables {
    match statement {
        Statement::CreateTable { table_name } => with_table(tables, table_name@),
        Statement::ReadValue { .. } => tables,
        Statement::WriteValue { table_name, key, value } => with_value(
            tables,
            table_name@,
            key@,
            value@,
        ),
        Statement::RemoveValue { table_name, key } => without_value(tables, table_name@, key@),
    }
}

/// The value in the row that a statement gives, if it gives one.
pub open spec fn statement_row(tables: Tables, statement: Statement) -> Option<Seq<u8>> {
    match statement {
        Statement::ReadValue { table_name, key } => lookup(tables, table_name@, key@),
        _ => None,
    }
}

/// A database, perhaps with a transaction under way.
#[verifier::ext_equal]
pub struct Database {
    /// What is committed.
    pub committed: Tables,
    /// What the transaction under way sees.
    pub working: Option<Tables>,
}

/// The databases on disk, each in its directory: the tables that are committed.
pub type Files = Map<PathBuf, Tables>;

/// The database in the directory `path`, once it is opened. One that is there
/// is opened as it is, and one that is not is made without tables.
pub open spec fn opened(files: Files, path: PathBuf) -> Database {
    Database {
        committed: if files.contains_key(path) {
            files[path]
        } else {
            Map::empty()
        },
        working: None,
    }
}

/// What is on disk once the database in the directory `path` is closed. What
/// is committed stays, and a transaction under way is lost.
pub open spec fn closed(files: Files, path: PathBuf, database: Database) -> Files {
    files.insert(path, database.committed)
}

/// `event` is what can come of `action` in `database`. Any action but a
/// rollback may fail, and a statement about a table that is not there does.
pub open spec fn can_lead_to<E>(database: Database, action: ExchangeAction, event: ExchangeEvent<E>) -> bool {
    match (action, event) {
        (ExchangeAction::Begin, ExchangeEvent::Began) => database.working is None,
        (ExchangeAction::Begin, ExchangeEvent::Failed { .. }) => true,
        (ExchangeAction::Query { statement }, ExchangeEvent::Row { value }) => {
            &&& database.working matches Some(tables)
            &&& runnable(tables, statement)
            &&& super::command::bytes_of(value) == statement_row(tables, statement)
        },
        (ExchangeAction::Query { .. }, ExchangeEvent::Failed { .. }) => true,
        (ExchangeAction::Execute { statement }, ExchangeEvent::Executed) => {
            &&& database.working matches Some(tables)
            &&& runnable(tables, statement)
        },
        (ExchangeAction::Execute { .. }, ExchangeEvent::Failed { .. }) => true,
        (ExchangeAction::Commit, ExchangeEvent::Committed) => database.working is Some,
        (ExchangeAction::Commit, ExchangeEvent::Failed { .. }) => true,
        (ExchangeAction::RollBack, ExchangeEvent::RolledBack) => true,
        _ => false,
    }
}

/// The database after `action` has led to `event`. What fails has no effect.
pub open spec fn database_after<E>(
    database: Database,
    action: ExchangeAction,
    event: ExchangeEvent<E>,
) -> Database {
    match (action, event) {
        (ExchangeAction::Begin, ExchangeEvent::Began) => Database {
            working: Some(database.committed),
            ..database
        },
        (ExchangeAction::Execute { statement }, ExchangeEvent::Executed) => Database {
            working: Some(statement_effect(database.working->0, statement)),
            ..database
        },
        (ExchangeAction::Commit, ExchangeEvent::Committed) => Database {
            committed: database.working->0,
            working: None,
        },
        (ExchangeAction::RollBack, ExchangeEvent::RolledBack) => Database {
            working: None,
            ..database
        },
        _ => database,
    }
}

/// The table that a command is about is there, or the command can do without.
pub open spec fn feasible(tables: Tables, command: CommandState) -> bool {
    match command {
        CommandState::Create { .. } => true,
        CommandState::Read { table_name, .. } => has_table(tables, table_name),
        CommandState::Write { table_name, .. } => has_table(tables, table_name),
        CommandState::Remove { table_name, .. } => has_table(tables, table_name),
        CommandState::Flush { .. } => true,
    }
}

/// The tables after a command has succeeded.
pub open spec fn command_effect(tables: Tables, command: CommandState) -> Tables {
    match command {
        CommandState::Create { table_name } => with_table(tables, table_name),
        CommandState::Read { .. } => tables,
        CommandState::Write { table_name, key, value } => with_value(tables, table_name, key, value),
        CommandState::Remove { table_name, key } => without_value(tables, table_name, key),
        CommandState::Flush { .. } => tables,
    }
}

/// The response to a command that succeeds: to a read, write or removal, the
/// value that the key had when the command began.
pub open spec fn command_response(tables: Tables, command: CommandState) -> ResponseState {
    match command {
        CommandState::Create { .. } => ResponseState::Empty,
        CommandState::Read { table_name, key } => ResponseState::Value(lookup(tables, table_name, key)),
        CommandState::Write { table_name, key, .. } => ResponseState::Value(
            lookup(tables, table_name, key),
        ),
        CommandState::Remove { table_name, key } => ResponseState::Value(
            lookup(tables, table_name, key),
        ),
        CommandState::Flush { .. } => ResponseState::Empty,
    }
}

/// The table that a command is about.
pub open spec fn table_of(command: CommandState) -> Seq<char> {
    match command {
        CommandState::Create { table_name } => table_name,
        CommandState::Read { table_name, .. } => table_name,
        CommandState::Write { table_name, .. } => table_name,
        CommandState::Remove { table_name, .. } => table_name,
        CommandState::Flush { table_name } => table_name,
    }
}

} // verus!
