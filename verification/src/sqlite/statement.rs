//! The SQL statements that commands are made of.
//!
//! The name of a table is put into the text of a statement as it stands. Keys
//! and values are parameters: `$1` is the key, and `$2` the value.

use vstd::prelude::*;
use vstd::string::*;

verus! {

/// A statement, with its parameters.
pub enum Statement<'a> {
    /// Makes a table of keys and values, unless it is there.
    CreateTable { table_name: &'a String },
    /// Looks up the value of a key.
    ReadValue { table_name: &'a String, key: &'a String },
    /// Inserts a key with its value, or replaces the value of the key.
    WriteValue { table_name: &'a String, key: &'a String, value: &'a Vec<u8> },
    /// Deletes a key and its value.
    RemoveValue { table_name: &'a String, key: &'a String },
}

/// The text of the statement that makes a table.
pub open spec fn create_table_text(table_name: Seq<char>) -> Seq<char> {
    "CREATE TABLE IF NOT EXISTS "@ + table_name + " (
                        _id INTEGER PRIMARY KEY,
                        key TEXT NOT NULL UNIQUE,
                        value BLOB
                )"@
}

/// The text of the statement that looks up a value.
pub open spec fn read_value_text(table_name: Seq<char>) -> Seq<char> {
    "SELECT VALUE FROM "@ + table_name + " WHERE key = $1"@
}

/// The text of the statement that sets a value.
pub open spec fn write_value_text(table_name: Seq<char>) -> Seq<char> {
    "INSERT INTO "@ + table_name + " (key, value)
            VALUES($1, $2) 
            ON CONFLICT(key) 
            DO UPDATE SET value=excluded.value"@
}

/// The text of the statement that deletes a value.
pub open spec fn remove_value_text(table_name: Seq<char>) -> Seq<char> {
    "DELETE FROM "@ + table_name + " WHERE key = $1"@
}

/// The text of the statement that makes the table `table_name`.
pub fn create_table(table_name: &str) -> (sql: String)
    ensures
        sql@ == create_table_text(table_name@),
{
    let sql: String = "CREATE TABLE IF NOT EXISTS ".to_owned();
    sql.concat(table_name).concat(
        " (
                        _id INTEGER PRIMARY KEY,
                        key TEXT NOT NULL UNIQUE,
                        value BLOB
                )",
    )
}

/// The text of the statement that looks up a value in `table_name`.
pub fn read_value(table_name: &str) -> (sql: String)
    ensures
        sql@ == read_value_text(table_name@),
{
    let sql: String = "SELECT VALUE FROM ".to_owned();
    sql.concat(table_name).concat(" WHERE key = $1")
}

/// The text of the statement that sets a value in `table_name`.
pub fn write_value(table_name: &str) -> (sql: String)
    ensures
        sql@ == write_value_text(table_name@),
{
    let sql: String = "INSERT INTO ".to_owned();
    sql.concat(table_name).concat(
        " (key, value)
            VALUES($1, $2) 
            ON CONFLICT(key) 
            DO UPDATE SET value=excluded.value",
    )
}

/// The text of the statement that deletes a value from `table_name`.
pub fn remove_value(table_name: &str) -> (sql: String)
    ensures
        sql@ == remove_value_text(table_name@),
{
    let sql: String = "DELETE FROM ".to_owned();
    sql.concat(table_name).concat(" WHERE key = $1")
}

impl<'a> Statement<'a> {
    /// The text of the statement.
    pub fn sql(&self) -> (sql: String)
        ensures
            sql@ == (match *self {
                Statement::CreateTable { table_name } => create_table_text(table_name@),
                Statement::ReadValue { table_name, .. } => read_value_text(table_name@),
                Statement::WriteValue { table_name, .. } => write_value_text(table_name@),
                Statement::RemoveValue { table_name, .. } => remove_value_text(table_name@),
            }),
    {
        match self {
            Statement::CreateTable { table_name } => create_table(table_name.as_str()),
            Statement::ReadValue { table_name, .. } => read_value(table_name.as_str()),
            Statement::WriteValue { table_name, .. } => write_value(table_name.as_str()),
            Statement::RemoveValue { table_name, .. } => remove_value(table_name.as_str()),
        }
    }
}

/// The text of every statement is that of the statement with the whole name of
/// the table in one place: it begins and ends as the statement does, and what
/// stands between is the name.
pub proof fn law_statements_hold_the_whole_name_of_the_table(table_name: Seq<char>)
    ensures
        ({
            let text = create_table_text(table_name);
            &&& text.take(27) == "CREATE TABLE IF NOT EXISTS "@
            &&& text.subrange(27, 27 + table_name.len() as int) == table_name
            &&& text.skip(27 + table_name.len() as int) == " (
                        _id INTEGER PRIMARY KEY,
                        key TEXT NOT NULL UNIQUE,
                        value BLOB
                )"@
        }),
        ({
            let text = read_value_text(table_name);
            &&& text.take(18) == "SELECT VALUE FROM "@
            &&& text.subrange(18, 18 + table_name.len() as int) == table_name
            &&& text.skip(18 + table_name.len() as int) == " WHERE key = $1"@
        }),
        ({
            let text = write_value_text(table_name);
            &&& text.take(12) == "INSERT INTO "@
            &&& text.subrange(12, 12 + table_name.len() as int) == table_name
            &&& text.skip(12 + table_name.len() as int) == " (key, value)
            VALUES($1, $2) 
            ON CONFLICT(key) 
            DO UPDATE SET value=excluded.value"@
        }),
        ({
            let text = remove_value_text(table_name);
            &&& text.take(12) == "DELETE FROM "@
            &&& text.subrange(12, 12 + table_name.len() as int) == table_name
            &&& text.skip(12 + table_name.len() as int) == " WHERE key = $1"@
        }),
{
    reveal_strlit("CREATE TABLE IF NOT EXISTS ");
    reveal_strlit("SELECT VALUE FROM ");
    reveal_strlit("INSERT INTO ");
    reveal_strlit("DELETE FROM ");
    let n = table_name.len() as int;
    assert(create_table_text(table_name).take(27) =~= "CREATE TABLE IF NOT EXISTS "@);
    assert(create_table_text(table_name).subrange(27, 27 + n) =~= table_name);
    assert(create_table_text(table_name).skip(27 + n) =~= " (
                        _id INTEGER PRIMARY KEY,
                        key TEXT NOT NULL UNIQUE,
                        value BLOB
                )"@);
    assert(read_value_text(table_name).take(18) =~= "SELECT VALUE FROM "@);
    assert(read_value_text(table_name).subrange(18, 18 + n) =~= table_name);
    assert(read_value_text(table_name).skip(18 + n) =~= " WHERE key = $1"@);
    assert(write_value_text(table_name).take(12) =~= "INSERT INTO "@);
    assert(write_value_text(table_name).subrange(12, 12 + n) =~= table_name);
    assert(write_value_text(table_name).skip(12 + n) =~= " (key, value)
            VALUES($1, $2) 
            ON CONFLICT(key) 
            DO UPDATE SET value=excluded.value"@);
    assert(remove_value_text(table_name).take(12) =~= "DELETE FROM "@);
    assert(remove_value_text(table_name).subrange(12, 12 + n) =~= table_name);
    assert(remove_value_text(table_name).skip(12 + n) =~= " WHERE key = $1"@);
}

} // verus!
