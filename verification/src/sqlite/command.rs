//! Commands to a database, and its responses.

use vstd::prelude::*;

verus! {

/// Why an operation on a store did not succeed, besides errors of SQLite.
#[derive(Clone, Copy, Debug, PartialEq, Eq, Structural)]
pub enum SqliteError {
    /// The key is neither a content identifier nor valid UTF-8.
    UnserializableKey,
    /// The database gave a response of the wrong kind.
    InvalidResponse,
}

impl SqliteError {
    /// The error in words.
    pub open spec fn text(self) -> Seq<char> {
        match self {
            SqliteError::UnserializableKey => "Could not serialize sqlite key."@,
            SqliteError::InvalidResponse => "Invalid sqlite response."@,
        }
    }

    /// The error in words.
    pub fn message(self) -> (message: String)
        ensures
            message@ == self.text(),
    {
        match self {
            SqliteError::UnserializableKey => "Could not serialize sqlite key.".to_owned(),
            SqliteError::InvalidResponse => "Invalid sqlite response.".to_owned(),
        }
    }
}

/// A command to the database.
#[derive(Clone, Debug)]
pub enum SqliteCommand {
    /// Make the table `table_name`, unless it is there.
    Create { table_name: String },
    /// Look up the value of `key`.
    Read { table_name: String, key: String },
    /// Set the value of `key`.
    Write { table_name: String, key: String, value: Vec<u8> },
    /// Forget the value of `key`.
    Remove { table_name: String, key: String },
    /// Make sure that earlier commands have taken effect.
    Flush { table_name: String },
}

/// A command, seen as a mathematical value.
pub enum CommandState {
    Create { table_name: Seq<char> },
    Read { table_name: Seq<char>, key: Seq<char> },
    Write { table_name: Seq<char>, key: Seq<char>, value: Seq<u8> },
    Remove { table_name: Seq<char>, key: Seq<char> },
    Flush { table_name: Seq<char> },
}

impl View for SqliteCommand {
    type V = CommandState;

    open spec fn view(&self) -> CommandState {
        match self {
            SqliteCommand::Create { table_name } => CommandState::Create { table_name: table_name@ },
            SqliteCommand::Read { table_name, key } => CommandState::Read {
                table_name: table_name@,
                key: key@,
            },
            SqliteCommand::Write { table_name, key, value } => CommandState::Write {
                table_name: table_name@,
                key: key@,
                value: value@,
            },
            SqliteCommand::Remove { table_name, key } => CommandState::Remove {
                table_name: table_name@,
                key: key@,
            },
            SqliteCommand::Flush { table_name } => CommandState::Flush { table_name: table_name@ },
        }
    }
}

/// A response of the database.
#[derive(Clone, Debug)]
pub enum SqliteResponse {
    /// The value that a key has, or had before the command, if any.
    Value(Option<Vec<u8>>),
    /// The command was carried out.
    Empty,
}

/// A response, seen as a mathematical value.
pub enum ResponseState {
    Value(Option<Seq<u8>>),
    Empty,
}

/// What an optional byte string holds.
pub open spec fn bytes_of(value: Option<Vec<u8>>) -> Option<Seq<u8>> {
    match value {
        Some(value) => Some(value@),
        None => None,
    }
}

impl View for SqliteResponse {
    type V = ResponseState;

    open spec fn view(&self) -> ResponseState {
        match self {
            SqliteResponse::Value(value) => ResponseState::Value(bytes_of(*value)),
            SqliteResponse::Empty => ResponseState::Empty,
        }
    }
}

impl SqliteResponse {
    /// The value in a response to a command that asks for one.
    pub fn value(self) -> (value: Result<Option<Vec<u8>>, SqliteError>)
        ensures
            value == (match self {
                SqliteResponse::Value(value) => Ok::<Option<Vec<u8>>, SqliteError>(value),
                SqliteResponse::Empty => Err::<Option<Vec<u8>>, SqliteError>(
                    SqliteError::InvalidResponse,
                ),
            }),
    {
        match self {
            SqliteResponse::Value(value) => Ok(value),
            SqliteResponse::Empty => Err(SqliteError::InvalidResponse),
        }
    }

    /// Acknowledges a response to a command that asks for no value.
    pub fn empty(self) -> (done: Result<(), SqliteError>)
        ensures
            done == (match self {
                SqliteResponse::Empty => Ok::<(), SqliteError>(()),
                SqliteResponse::Value(_) => Err::<(), SqliteError>(SqliteError::InvalidResponse),
            }),
    {
        match self {
            SqliteResponse::Empty => Ok(()),
            SqliteResponse::Value(_) => Err(SqliteError::InvalidResponse),
        }
    }
}

} // verus!
