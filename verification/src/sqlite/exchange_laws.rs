//! What the processing of a command leads to, in the model of
//! [`super::database`].

use vstd::prelude::*;

use super::command::{SqliteCommand, SqliteResponse};
use super::database::{Database, Tables};
use super::exchange::{Exchange, ExchangeAction, ExchangeEvent, ExchangePhase};

verus! {

/// The processing of `command` on a database with `tables`, after the first
/// `count` of `events`.
pub open spec fn exchange_at<E>(
    command: SqliteCommand,
    tables: Tables,
    events: Seq<ExchangeEvent<E>>,
    count: nat,
) -> (Exchange<E>, Database)
    decreases count,
{
    if count == 0 {
        (
            Exchange {
                command,
                phase: if command is Flush {
                    ExchangePhase::Done { result: Ok(SqliteResponse::Empty) }
                } else {
                    ExchangePhase::Begin
                },
            },
            Database { committed: tables, working: None },
        )
    } else {
        let (exchange, database) = exchange_at(command, tables, events, (count - 1) as nat);
        let event = events[count - 1];
        (
            Exchange { command, phase: exchange.phase_after(event) },
            super::database::database_after(database, exchange.pending(), event),
        )
    }
}

/// The event at place `i` is what can come of the action that is pending then.
pub open spec fn possible_at<E>(
    command: SqliteCommand,
    tables: Tables,
    events: Seq<ExchangeEvent<E>>,
    i: nat,
) -> bool {
    let (exchange, database) = exchange_at(command, tables, events, i);
    super::database::can_lead_to(database, exchange.pending(), events[i as int])
}

/// `events` can come of the processing of `command`.
pub open spec fn possible<E>(
    command: SqliteCommand,
    tables: Tables,
    events: Seq<ExchangeEvent<E>>,
) -> bool {
    forall|i: nat| i < events.len() ==> #[trigger] possible_at(command, tables, events, i)
}

/// Processing of `command` through `events` ends with `result`.
pub open spec fn ends_with<E>(
    command: SqliteCommand,
    tables: Tables,
    events: Seq<ExchangeEvent<E>>,
    result: Result<SqliteResponse, E>,
) -> bool {
    exchange_at(command, tables, events, events.len()).0.phase == (ExchangePhase::Done { result })
}

/// What is committed after the processing of `command` through `events`.
pub open spec fn left_behind<E>(
    command: SqliteCommand,
    tables: Tables,
    events: Seq<ExchangeEvent<E>>,
) -> Tables {
    exchange_at(command, tables, events, events.len()).1.committed
}

/// How the phase of a processing and the database fit together.
spec fn fits<E>(command: SqliteCommand, tables: Tables, exchange: Exchange<E>, database: Database) -> bool {
    &&& exchange.command == command
    &&& match exchange.phase {
        ExchangePhase::Begin => {
            &&& !(command is Flush)
            &&& database == (Database { committed: tables, working: None })
        },
        ExchangePhase::Read => {
            &&& command is Read || command is Write || command is Remove
            &&& database == (Database { committed: tables, working: Some(tables) })
        },
        ExchangePhase::Change { previous } => {
            &&& command is Create || command is Write || command is Remove
            &&& database == (Database { committed: tables, working: Some(tables) })
            &&& command is Create || {
                &&& super::database::command_response(tables, command@)
                    == super::command::ResponseState::Value(super::command::bytes_of(previous))
                &&& super::database::feasible(tables, command@)
            }
        },
        ExchangePhase::Commit { response } => {
            &&& !(command is Flush)
            &&& database.committed == tables
            &&& database.working == Some(super::database::command_effect(tables, command@))
            &&& response@ == super::database::command_response(tables, command@)
            &&& super::database::feasible(tables, command@)
        },
        ExchangePhase::RollBack { .. } => {
            &&& !(command is Flush)
            &&& database.committed == tables
        },
        ExchangePhase::Done { result } => {
            &&& database.working is None
            &&& match result {
                Ok(response) => {
                    &&& database.committed == super::database::command_effect(tables, command@)
                    &&& response@ == super::database::command_response(tables, command@)
                    &&& super::database::feasible(tables, command@)
                },
                Err(_) => {
                    &&& !(command is Flush)
                    &&& database.committed == tables
                },
            }
        },
    }
}

proof fn lemma_fits<E>(
    command: SqliteCommand,
    tables: Tables,
    events: Seq<ExchangeEvent<E>>,
    count: nat,
)
    requires
        possible(command, tables, events),
        count <= events.len(),
    ensures
        ({
            let (exchange, database) = exchange_at(command, tables, events, count);
            fits(command, tables, exchange, database)
        }),
    decreases count,
{
    if count > 0 {
        lemma_fits(command, tables, events, (count - 1) as nat);
        assert(possible_at(command, tables, events, (count - 1) as nat));
    }
}

/// A command takes effect as a whole or not at all, at every moment of its
/// processing: what is committed is either what was, or what the command makes
/// of it. A command that ends with an error has changed nothing, and left no
/// transaction open.
pub proof fn law_commands_are_atomic<E>(
    command: SqliteCommand,
    tables: Tables,
    events: Seq<ExchangeEvent<E>>,
)
    requires
        possible(command, tables, events),
    ensures
        ({
            let left = left_behind(command, tables, events);
            left == tables || left == super::database::command_effect(tables, command@)
        }),
        forall|error: E| #[trigger]
            ends_with(command, tables, events, Err::<SqliteResponse, E>(error)) ==> {
                &&& left_behind(command, tables, events) == tables
                &&& exchange_at(command, tables, events, events.len()).1.working is None
            },
{
    lemma_fits(command, tables, events, events.len());
}

/// A command that ends with a response has found the table that it is about,
/// if it needs one, and has taken its effect. The response is the one that the
/// command owes, and no transaction is left open.
pub proof fn law_responses_are_true<E>(
    command: SqliteCommand,
    tables: Tables,
    events: Seq<ExchangeEvent<E>>,
    response: SqliteResponse,
)
    requires
        possible(command, tables, events),
        ends_with(command, tables, events, Ok::<SqliteResponse, E>(response)),
    ensures
        super::database::feasible(tables, command@),
        left_behind(command, tables, events) == super::database::command_effect(tables, command@),
        response@ == super::database::command_response(tables, command@),
        exchange_at(command, tables, events, events.len()).1.working is None,
{
    lemma_fits(command, tables, events, events.len());
}

/// A command about a table with a plain name that is not there never ends with a response, unless
/// it makes the table or needs none.
pub proof fn law_missing_table_is_no_success<E>(
    command: SqliteCommand,
    tables: Tables,
    events: Seq<ExchangeEvent<E>>,
    response: SqliteResponse,
)
    requires
        possible(command, tables, events),
        super::database::is_plain(super::database::table_of(command@)),
        !super::database::feasible(tables, command@),
    ensures
        !ends_with(command, tables, events, Ok::<SqliteResponse, E>(response)),
{
    lemma_fits(command, tables, events, events.len());
}

/// The number of events that complete a command when nothing fails.
pub open spec fn exchange_length(command: SqliteCommand) -> nat {
    match command {
        SqliteCommand::Create { .. } => 3,
        SqliteCommand::Read { .. } => 3,
        SqliteCommand::Write { .. } => 4,
        SqliteCommand::Remove { .. } => 4,
        SqliteCommand::Flush { .. } => 0,
    }
}

/// A command in whose processing nothing fails ends with a response.
pub proof fn law_unfailed_command_is_answered<E>(
    command: SqliteCommand,
    tables: Tables,
    events: Seq<ExchangeEvent<E>>,
)
    requires
        possible(command, tables, events),
        forall|i: int| 0 <= i < events.len() ==> !(#[trigger] events[i] is Failed),
        events.len() == exchange_length(command),
    ensures
        exists|response: SqliteResponse| #[trigger]
            ends_with(command, tables, events, Ok::<SqliteResponse, E>(response)),
{
    reveal_with_fuel(exchange_at, 5);
    let (exchange, database) = exchange_at(command, tables, events, events.len());
    if !(command is Flush) {
        assert(possible_at(command, tables, events, 0));
        assert(!(events[0] is Failed));
        assert(possible_at(command, tables, events, 1));
        assert(!(events[1] is Failed));
        assert(possible_at(command, tables, events, 2));
        assert(!(events[2] is Failed));
        if command is Write || command is Remove {
            assert(possible_at(command, tables, events, 3));
            assert(!(events[3] is Failed));
        }
    }
    match exchange.phase {
        ExchangePhase::Done { result: Ok(response) } => {
            assert(ends_with(command, tables, events, Ok::<SqliteResponse, E>(response)));
        },
        _ => {
            assert(false);
        },
    }
}

/// Whether `event` is an answer to `action`.
pub open spec fn answers<E>(action: ExchangeAction<'_>, event: ExchangeEvent<E>) -> bool {
    match (action, event) {
        (ExchangeAction::Begin, ExchangeEvent::Began) => true,
        (ExchangeAction::Begin, ExchangeEvent::Failed { .. }) => true,
        (ExchangeAction::Query { .. }, ExchangeEvent::Row { .. }) => true,
        (ExchangeAction::Query { .. }, ExchangeEvent::Failed { .. }) => true,
        (ExchangeAction::Execute { .. }, ExchangeEvent::Executed) => true,
        (ExchangeAction::Execute { .. }, ExchangeEvent::Failed { .. }) => true,
        (ExchangeAction::Commit, ExchangeEvent::Committed) => true,
        (ExchangeAction::Commit, ExchangeEvent::Failed { .. }) => true,
        (ExchangeAction::RollBack, ExchangeEvent::RolledBack) => true,
        _ => false,
    }
}

/// Whether a command can be in a phase: only commands with a key look a value
/// up, reading changes nothing, and a flush is done at once.
pub open spec fn is_apt<E>(exchange: Exchange<E>) -> bool {
    match exchange.phase {
        ExchangePhase::Begin => exchange.command !is Flush,
        ExchangePhase::Read => {
            ||| exchange.command is Read
            ||| exchange.command is Write
            ||| exchange.command is Remove
        },
        ExchangePhase::Change { .. } => {
            ||| exchange.command is Create
            ||| exchange.command is Write
            ||| exchange.command is Remove
        },
        _ => true,
    }
}

/// There is nothing left to do exactly at the end.
/// An event has an effect exactly if it answers the action that was asked for.
/// An answer that the action failed leads to an end with that very error: at
/// once if no transaction was begun, and else by a rollback.
pub proof fn law_exchange_goes_by_answers<E>(exchange: Exchange<E>, event: ExchangeEvent<E>)
    requires
        is_apt(exchange),
    ensures
        exchange.pending() is Finish <==> exchange.phase is Done,
        is_apt(Exchange { command: exchange.command, phase: exchange.phase_after(event) }),
        exchange.phase_after(event) == exchange.phase <==> !answers(exchange.pending(), event),
        answers(exchange.pending(), event) ==> match event {
            ExchangeEvent::Failed { error } => {
                let next = Exchange {
                    command: exchange.command,
                    phase: exchange.phase_after(event),
                };
                let last = ExchangePhase::Done::<E> { result: Err(error) };
                if exchange.pending() is Begin {
                    next.phase == last
                } else {
                    &&& next.pending() is RollBack
                    &&& next.phase_after(ExchangeEvent::RolledBack) == last
                }
            },
            _ => true,
        },
{
}

/// A command that ends with an error ends with one that SQLite gave for an
/// action of this command.
pub proof fn law_error_is_one_that_was_given<E>(
    command: SqliteCommand,
    tables: Tables,
    events: Seq<ExchangeEvent<E>>,
    count: nat,
)
    requires
        count <= events.len(),
    ensures
        match exchange_at(command, tables, events, count).0.phase {
            ExchangePhase::RollBack { error } | ExchangePhase::Done { result: Err(error) } => exists|
                i: int,
            |
                0 <= i < count && #[trigger] events[i] == (ExchangeEvent::Failed::<E> { error }),
            _ => true,
        },
    decreases count,
{
    if count > 0 {
        law_error_is_one_that_was_given(command, tables, events, (count - 1) as nat);
        let last = events[count - 1];
    }
}

} // verus!
