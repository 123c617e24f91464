//! The processing of one command.
//!
//! Every command but a flush runs in a transaction. Where a statement or the
//! commit fails, the transaction is rolled back, and the error is the result
//! of the command.

use vstd::prelude::*;

use super::command::{SqliteCommand, SqliteResponse};
use super::statement::Statement;

verus! {

/// Where the processing of a command stands.
pub enum ExchangePhase<E> {
    /// A transaction is to be begun.
    Begin,
    /// The present value of the key is to be looked up.
    Read,
    /// The change is to be made; `previous` is the value that the key had.
    Change { previous: Option<Vec<u8>> },
    /// The transaction is to be committed.
    Commit { response: SqliteResponse },
    /// The transaction is to be rolled back.
    RollBack { error: E },
    /// The command is processed.
    Done { result: Result<SqliteResponse, E> },
}

/// What has to be done next.
pub enum ExchangeAction<'a> {
    /// Begin a transaction.
    Begin,
    /// Run a statement that gives at most one row of one value.
    Query { statement: Statement<'a> },
    /// Run a statement that gives no rows.
    Execute { statement: Statement<'a> },
    /// Commit the transaction.
    Commit,
    /// Roll the transaction back.
    RollBack,
    /// Nothing is left to do: see [`Exchange::outcome`].
    Finish,
}

/// What came of an action.
pub enum ExchangeEvent<E> {
    Began,
    /// The value in the row that a query gave, if it gave a row.
    Row { value: Option<Vec<u8>> },
    Executed,
    Committed,
    RolledBack,
    /// The action did not succeed.
    Failed { error: E },
}

/// The processing of a command.
pub struct Exchange<E> {
    pub command: SqliteCommand,
    pub phase: ExchangePhase<E>,
}

/// Starts to process `command`.
pub fn process_message<E>(command: SqliteCommand) -> (exchange: Exchange<E>)
    ensures
        exchange.command == command,
        exchange.phase == (if command is Flush {
            ExchangePhase::<E>::Done { result: Ok(SqliteResponse::Empty) }
        } else {
            ExchangePhase::<E>::Begin
        }),
{
    let phase = match &command {
        SqliteCommand::Flush { .. } => ExchangePhase::Done { result: Ok(SqliteResponse::Empty) },
        _ => ExchangePhase::Begin,
    };
    Exchange { command, phase }
}

impl<E> Exchange<E> {
    /// The phase that follows once the pending action has led to `event`; the
    /// same phase where `event` is no answer to that action.
    pub open spec fn phase_after(self, event: ExchangeEvent<E>) -> ExchangePhase<E> {
        match (self.phase, event) {
            (ExchangePhase::Begin, ExchangeEvent::Began) =>
                if self.command is Create {
                    ExchangePhase::Change { previous: None }
                } else {
                    ExchangePhase::Read
                },
            (ExchangePhase::Read, ExchangeEvent::Row { value }) =>
                if self.command is Read {
                    ExchangePhase::Commit { response: SqliteResponse::Value(value) }
                } else {
                    ExchangePhase::Change { previous: value }
                },
            (ExchangePhase::Change { previous }, ExchangeEvent::Executed) =>
                if self.command is Create {
                    ExchangePhase::Commit { response: SqliteResponse::Empty }
                } else {
                    ExchangePhase::Commit { response: SqliteResponse::Value(previous) }
                },
            (ExchangePhase::Commit { response }, ExchangeEvent::Committed) =>
                ExchangePhase::Done { result: Ok(response) },
            (ExchangePhase::RollBack { error }, ExchangeEvent::RolledBack) =>
                ExchangePhase::Done { result: Err(error) },
            (ExchangePhase::Begin, ExchangeEvent::Failed { error }) =>
                ExchangePhase::Done { result: Err(error) },
            (ExchangePhase::Read, ExchangeEvent::Failed { error }) => ExchangePhase::RollBack { error },
            (ExchangePhase::Change { .. }, ExchangeEvent::Failed { error }) =>
                ExchangePhase::RollBack { error },
            (ExchangePhase::Commit { .. }, ExchangeEvent::Failed { error }) =>
                ExchangePhase::RollBack { error },
            _ => self.phase,
        }
    }

    /// What has to be done next.
    pub open spec fn pending(&self) -> ExchangeAction<'_> {
        match (&self.phase, &self.command) {
            (ExchangePhase::Begin, _) => ExchangeAction::Begin,
            (ExchangePhase::Read, SqliteCommand::Read { table_name, key }) => ExchangeAction::Query {
                statement: Statement::ReadValue { table_name, key },
            },
            (ExchangePhase::Read, SqliteCommand::Write { table_name, key, .. }) => ExchangeAction::Query {
                statement: Statement::ReadValue { table_name, key },
            },
            (ExchangePhase::Read, SqliteCommand::Remove { table_name, key }) => ExchangeAction::Query {
                statement: Statement::ReadValue { table_name, key },
            },
            (ExchangePhase::Change { .. }, SqliteCommand::Create { table_name }) =>
                ExchangeAction::Execute { statement: Statement::CreateTable { table_name } },
            (ExchangePhase::Change { .. }, SqliteCommand::Write { table_name, key, value }) =>
                ExchangeAction::Execute {
                    statement: Statement::WriteValue { table_name, key, value },
                },
            (ExchangePhase::Change { .. }, SqliteCommand::Remove { table_name, key }) =>
                ExchangeAction::Execute { statement: Statement::RemoveValue { table_name, key } },
            (ExchangePhase::Commit { .. }, _) => ExchangeAction::Commit,
            (ExchangePhase::RollBack { .. }, _) => ExchangeAction::RollBack,
            _ => ExchangeAction::Finish,
        }
    }

    /// What has to be done next.
    pub fn action(&self) -> (action: ExchangeAction<'_>)
        ensures
            action == self.pending(),
    {
        match (&self.phase, &self.command) {
            (ExchangePhase::Begin, _) => ExchangeAction::Begin,
            (ExchangePhase::Read, SqliteCommand::Read { table_name, key }) => ExchangeAction::Query {
                statement: Statement::ReadValue { table_name, key },
            },
            (ExchangePhase::Read, SqliteCommand::Write { table_name, key, .. }) => ExchangeAction::Query {
                statement: Statement::ReadValue { table_name, key },
            },
            (ExchangePhase::Read, SqliteCommand::Remove { table_name, key }) => ExchangeAction::Query {
                statement: Statement::ReadValue { table_name, key },
            },
            (ExchangePhase::Change { .. }, SqliteCommand::Create { table_name }) =>
                ExchangeAction::Execute { statement: Statement::CreateTable { table_name } },
            (ExchangePhase::Change { .. }, SqliteCommand::Write { table_name, key, value }) =>
                ExchangeAction::Execute {
                    statement: Statement::WriteValue { table_name, key, value },
                },
            (ExchangePhase::Change { .. }, SqliteCommand::Remove { table_name, key }) =>
                ExchangeAction::Execute { statement: Statement::RemoveValue { table_name, key } },
            (ExchangePhase::Commit { .. }, _) => ExchangeAction::Commit,
            (ExchangePhase::RollBack { .. }, _) => ExchangeAction::RollBack,
            _ => ExchangeAction::Finish,
        }
    }

    /// Takes in what came of the pending action. An event that is no answer
    /// to that action changes nothing.
    pub fn step(self, event: ExchangeEvent<E>) -> (exchange: Self)
        ensures
            exchange.command == self.command,
            exchange.phase == self.phase_after(event),
    {
        let Exchange { command, phase } = self;
        let phase = match (phase, event) {
            (ExchangePhase::Begin, ExchangeEvent::Began) => match &command {
                SqliteCommand::Create { .. } => ExchangePhase::Change { previous: None },
                _ => ExchangePhase::Read,
            },
            (ExchangePhase::Read, ExchangeEvent::Row { value }) => match &command {
                SqliteCommand::Read { .. } => ExchangePhase::Commit {
                    response: SqliteResponse::Value(value),
                },
                _ => ExchangePhase::Change { previous: value },
            },
            (ExchangePhase::Change { previous }, ExchangeEvent::Executed) => match &command {
                SqliteCommand::Create { .. } => ExchangePhase::Commit { response: SqliteResponse::Empty },
                _ => ExchangePhase::Commit { response: SqliteResponse::Value(previous) },
            },
            (ExchangePhase::Commit { response }, ExchangeEvent::Committed) =>
                ExchangePhase::Done { result: Ok(response) },
            (ExchangePhase::RollBack { error }, ExchangeEvent::RolledBack) =>
                ExchangePhase::Done { result: Err(error) },
            (ExchangePhase::Begin, ExchangeEvent::Failed { error }) =>
                ExchangePhase::Done { result: Err(error) },
            (ExchangePhase::Read, ExchangeEvent::Failed { error }) => ExchangePhase::RollBack { error },
            (ExchangePhase::Change { .. }, ExchangeEvent::Failed { error }) =>
                ExchangePhase::RollBack { error },
            (ExchangePhase::Commit { .. }, ExchangeEvent::Failed { error }) =>
                ExchangePhase::RollBack { error },
            (phase, _) => phase,
        };
        Exchange { command, phase }
    }

    /// The response to the command, or the error that it ended with; `None`
    /// while it is processed.
    pub fn outcome(self) -> (outcome: Option<Result<SqliteResponse, E>>)
        ensures
            match self.phase {
                ExchangePhase::Done { result } => outcome == Some(result),
                _ => outcome is None,
            },
    {
        match self.phase {
            ExchangePhase::Done { result } => Some(result),
            _ => None,
        }
    }
}

} // verus!
