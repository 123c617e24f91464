//! Storage in a SQLite database, its client, and its stores.
//!
//! Sending a command and awaiting its response is up to the caller. So an
//! operation comes in two halves: the command that it sends, and what it makes
//! of the response, which is [`SqliteResponse::value`] for reads, writes and
//! removals, and [`SqliteResponse::empty`] for the rest.

use std::path::PathBuf;
use vstd::prelude::*;
use vstd::slice::slice_to_vec;

use super::command::{CommandState, SqliteCommand, SqliteError, SqliteResponse};
use super::key::key_bytes_to_key;

verus! {

/// Paths of the file system.
#[verifier::external_type_specification]
#[verifier::external_body]
pub struct ExPathBuf(PathBuf);

/// Cloning a path gives the same path.
pub assume_specification[ <PathBuf as Clone>::clone ](path: &PathBuf) -> (copy: PathBuf)
    ensures
        copy == *path,
;

/// The name of the database file in the directory of a storage.
pub const DATABASE_FILE: &'static str = "database.db";

/// How to come by a storage.
pub enum SqliteStorageInit {
    /// By opening the database in a directory.
    Path(PathBuf),
    /// By taking a database that is open; not supported.
    Db(),
}

/// A client of the database in a directory.
pub struct SqliteClient {
    pub path: PathBuf,
}

impl Clone for SqliteClient {
    fn clone(&self) -> (client: Self)
        ensures
            client == *self,
    {
        SqliteClient { path: self.path.clone() }
    }
}

/// A storage in a SQLite database.
pub struct SqliteStorage {
    pub client: SqliteClient,
}

/// A store, which is a table of the database.
pub struct SqliteStore {
    pub client: SqliteClient,
    pub table_name: String,
}

impl Clone for SqliteStorage {
    fn clone(&self) -> (storage: Self)
        ensures
            storage == *self,
    {
        SqliteStorage { client: self.client.clone() }
    }
}

impl Clone for SqliteStore {
    fn clone(&self) -> (store: Self)
        ensures
            store.client == self.client,
            store.table_name@ == self.table_name@,
    {
        SqliteStore { client: self.client.clone(), table_name: self.table_name.clone() }
    }
}

impl SqliteClient {
    /// A client of the database in the directory `path`.
    pub fn new(path: PathBuf) -> (client: Self)
        ensures
            client.path == path,
    {
        SqliteClient { path }
    }

    /// The command that looks up the value of `key`.
    pub fn read(&self, table_name: &str, key: String) -> (command: SqliteCommand)
        ensures
            command@ == (CommandState::Read { table_name: table_name@, key: key@ }),
    {
        SqliteCommand::Read { table_name: table_name.to_owned(), key }
    }

    /// The command that sets the value of `key`.
    pub fn write(&self, table_name: &str, key: String, value: Vec<u8>) -> (command: SqliteCommand)
        ensures
            command@ == (CommandState::Write {
                table_name: table_name@,
                key: key@,
                value: value@,
            }),
    {
        SqliteCommand::Write { table_name: table_name.to_owned(), key, value }
    }

    /// The command that forgets the value of `key`.
    pub fn remove(&self, table_name: &str, key: String) -> (command: SqliteCommand)
        ensures
            command@ == (CommandState::Remove { table_name: table_name@, key: key@ }),
    {
        SqliteCommand::Remove { table_name: table_name.to_owned(), key }
    }

    /// The command that makes a table.
    pub fn create(&self, table_name: &str) -> (command: SqliteCommand)
        ensures
            command@ == (CommandState::Create { table_name: table_name@ }),
    {
        SqliteCommand::Create { table_name: table_name.to_owned() }
    }

    /// The command that makes sure that earlier commands have taken effect.
    pub fn flush(&self, table_name: &str) -> (command: SqliteCommand)
        ensures
            command@ == (CommandState::Flush { table_name: table_name@ }),
    {
        SqliteCommand::Flush { table_name: table_name.to_owned() }
    }
}

impl SqliteStorage {
    /// A storage in the database that `init` tells. A database that is open
    /// already is not supported.
    pub fn new(init: SqliteStorageInit) -> (storage: Result<Self, SqliteError>)
        requires
            init is Path,
        ensures
            init matches SqliteStorageInit::Path(path) ==> storage == Ok::<Self, SqliteError>(
                SqliteStorage { client: SqliteClient { path } },
            ),
    {
        match init {
            SqliteStorageInit::Path(path) => Ok(SqliteStorage { client: SqliteClient::new(path) }),
            SqliteStorageInit::Db() => {
                vstd::pervasive::unreached()
            },
        }
    }

    /// The command that has to succeed before a store can be used.
    pub fn open_store(&self, name: &str) -> (command: SqliteCommand)
        ensures
            command@ == (CommandState::Create { table_name: name@ }),
    {
        self.client.create(name)
    }

    /// The store called `name`, given the response to the command of
    /// [`SqliteStorage::open_store`].
    pub fn get_store(&self, name: &str, response: SqliteResponse) -> (store: Result<
        SqliteStore,
        SqliteError,
    >)
        ensures
            match store {
                Ok(store) => {
                    &&& response is Empty
                    &&& store.client == self.client
                    &&& store.table_name@ == name@
                },
                Err(error) => response is Value && error == SqliteError::InvalidResponse,
            },
    {
        SqliteStore::new(&self.client, name, response)
    }

    /// The block store called `name`, which is the store of that name.
    pub fn get_block_store(&self, name: &str, response: SqliteResponse) -> (store: Result<
        SqliteStore,
        SqliteError,
    >)
        ensures
            match store {
                Ok(store) => {
                    &&& response is Empty
                    &&& store.client == self.client
                    &&& store.table_name@ == name@
                },
                Err(error) => response is Value && error == SqliteError::InvalidResponse,
            },
    {
        self.get_store(name, response)
    }

    /// The key-value store called `name`, which is the store of that name.
    pub fn get_key_value_store(&self, name: &str, response: SqliteResponse) -> (store: Result<
        SqliteStore,
        SqliteError,
    >)
        ensures
            match store {
                Ok(store) => {
                    &&& response is Empty
                    &&& store.client == self.client
                    &&& store.table_name@ == name@
                },
                Err(error) => response is Value && error == SqliteError::InvalidResponse,
            },
    {
        self.get_store(name, response)
    }
}

/// The command that looks up `key` in a table, if the key can be stored.
pub open spec fn read_command(table_name: Seq<char>, key: Seq<u8>) -> Option<CommandState> {
    match super::key::stored_key(key) {
        Some(text) => Some(CommandState::Read { table_name, key: text }),
        None => None,
    }
}

/// The command that sets `key` in a table, if the key can be stored.
pub open spec fn write_command(table_name: Seq<char>, key: Seq<u8>, value: Seq<u8>) -> Option<CommandState> {
    match super::key::stored_key(key) {
        Some(text) => Some(CommandState::Write { table_name, key: text, value }),
        None => None,
    }
}

/// The command that deletes `key` from a table, if the key can be stored.
pub open spec fn remove_command(table_name: Seq<char>, key: Seq<u8>) -> Option<CommandState> {
    match super::key::stored_key(key) {
        Some(text) => Some(CommandState::Remove { table_name, key: text }),
        None => None,
    }
}

/// `command` is the one that is wanted, or an error if there is none.
pub open spec fn sends(command: Result<SqliteCommand, SqliteError>, wanted: Option<CommandState>) -> bool {
    match (command, wanted) {
        (Ok(command), Some(wanted)) => command@ == wanted,
        (Err(error), None) => error == SqliteError::UnserializableKey,
        _ => false,
    }
}

impl SqliteStore {
    /// The store in the table `table_name`, given the response to the command
    /// that makes the table.
    pub fn new(client: &SqliteClient, table_name: &str, response: SqliteResponse) -> (store: Result<
        Self,
        SqliteError,
    >)
        ensures
            match store {
                Ok(store) => {
                    &&& response is Empty
                    &&& store.client == *client
                    &&& store.table_name@ == table_name@
                },
                Err(error) => response is Value && error == SqliteError::InvalidResponse,
            },
    {
        match response.empty() {
            Ok(()) => Ok(SqliteStore { client: client.clone(), table_name: table_name.to_owned() }),
            Err(error) => Err(error),
        }
    }

    /// The command that looks up the value of `key`.
    pub fn read(&self, key: &[u8]) -> (command: Result<SqliteCommand, SqliteError>)
        ensures
            sends(command, read_command(self.table_name@, key@)),
            super::key::goes_by_its_text(key@),
            command is Ok <==> super::key::cid_text(key@) is Some || vstd::utf8::valid_utf8(key@),
            command matches Ok(command) ==> command@ matches CommandState::Read {
                table_name,
                key: text,
            } && table_name == self.table_name@ && super::key::is_whole_key(key@, text),
    {
        match key_bytes_to_key(key) {
            Ok(text) => Ok(self.client.read(self.table_name.as_str(), text)),
            Err(error) => Err(error),
        }
    }

    /// The command that sets the value of `key` to `bytes`.
    pub fn write(&self, key: &[u8], bytes: &[u8]) -> (command: Result<SqliteCommand, SqliteError>)
        ensures
            sends(command, write_command(self.table_name@, key@, bytes@)),
            super::key::goes_by_its_text(key@),
            command is Ok <==> super::key::cid_text(key@) is Some || vstd::utf8::valid_utf8(key@),
            command matches Ok(command) ==> command@ matches CommandState::Write {
                table_name,
                key: text,
                value,
            } && table_name == self.table_name@ && super::key::is_whole_key(key@, text) && value
                == bytes@,
    {
        match key_bytes_to_key(key) {
            Ok(text) => Ok(self.client.write(self.table_name.as_str(), text, slice_to_vec(bytes))),
            Err(error) => Err(error),
        }
    }

    /// The command that forgets the value of `key`.
    pub fn remove(&self, key: &[u8]) -> (command: Result<SqliteCommand, SqliteError>)
        ensures
            sends(command, remove_command(self.table_name@, key@)),
            super::key::goes_by_its_text(key@),
            command is Ok <==> super::key::cid_text(key@) is Some || vstd::utf8::valid_utf8(key@),
            command matches Ok(command) ==> command@ matches CommandState::Remove {
                table_name,
                key: text,
            } && table_name == self.table_name@ && super::key::is_whole_key(key@, text),
    {
        match key_bytes_to_key(key) {
            Ok(text) => Ok(self.client.remove(self.table_name.as_str(), text)),
            Err(error) => Err(error),
        }
    }

    /// The command that makes sure that earlier commands have taken effect.
    pub fn flush(&self) -> (command: SqliteCommand)
        ensures
            command@ == (CommandState::Flush { table_name: self.table_name@ }),
    {
        self.client.flush(self.table_name.as_str())
    }
}

} // verus!
