//! What the operations of a store give back of one another, in the model of
//! [`super::database`].

use std::path::PathBuf;
use vstd::prelude::*;

use super::command::{CommandState, ResponseState, SqliteCommand, SqliteResponse};
use super::database::{Database, Files, Tables};
use super::exchange::ExchangeEvent;
use super::store::SqliteClient;

verus! {

/// Processing of `command` through `events` succeeds with `response`.
pub open spec fn succeeds<E>(
    command: SqliteCommand,
    tables: Tables,
    events: Seq<ExchangeEvent<E>>,
    response: SqliteResponse,
) -> bool {
    &&& super::exchange_laws::possible(command, tables, events)
    &&& super::exchange_laws::ends_with(command, tables, events, Ok::<SqliteResponse, E>(response))
}

/// A read gives back what the write before it wrote, for every key that can
/// be stored and every value.
pub proof fn law_read_gives_back_the_write<E>(
    tables: Tables,
    table_name: Seq<char>,
    key: Seq<u8>,
    value: Seq<u8>,
    write: SqliteCommand,
    write_events: Seq<ExchangeEvent<E>>,
    write_response: SqliteResponse,
    read: SqliteCommand,
    read_events: Seq<ExchangeEvent<E>>,
    read_response: SqliteResponse,
)
    requires
        super::store::write_command(table_name, key, value) == Some(write@),
        succeeds(write, tables, write_events, write_response),
        super::store::read_command(table_name, key) == Some(read@),
        succeeds(
            read,
            super::exchange_laws::left_behind(write, tables, write_events),
            read_events,
            read_response,
        ),
    ensures
        read_response@ == ResponseState::Value(Some(value)),
{
    let left = super::exchange_laws::left_behind(write, tables, write_events);
    super::exchange_laws::law_responses_are_true(write, tables, write_events, write_response);
    super::exchange_laws::law_responses_are_true(read, left, read_events, read_response);
}

/// A read gives back what the write before it wrote under either form of a
/// key: the key itself, or the text that it is stored under, such as the text of
/// a content identifier. The two forms name the same row, as writing and reading
/// tell of every key.
pub proof fn law_either_form_of_a_key_reads_the_write<E>(
    tables: Tables,
    table_name: Seq<char>,
    key: Seq<u8>,
    form: Seq<u8>,
    value: Seq<u8>,
    write: SqliteCommand,
    write_events: Seq<ExchangeEvent<E>>,
    write_response: SqliteResponse,
    read: SqliteCommand,
    read_events: Seq<ExchangeEvent<E>>,
    read_response: SqliteResponse,
)
    requires
        super::key::goes_by_its_text(key),
        form == key || (super::key::stored_key(key) matches Some(text) && form
            == vstd::utf8::encode_utf8(text)),
        super::store::write_command(table_name, key, value) == Some(write@),
        succeeds(write, tables, write_events, write_response),
        super::store::read_command(table_name, form) == Some(read@),
        succeeds(
            read,
            super::exchange_laws::left_behind(write, tables, write_events),
            read_events,
            read_response,
        ),
    ensures
        read_response@ == ResponseState::Value(Some(value)),
{
    law_read_gives_back_the_write(
        tables,
        table_name,
        key,
        value,
        write,
        write_events,
        write_response,
        read,
        read_events,
        read_response,
    );
}

/// An answered write is found after the database is closed and opened again:
/// `first` writes, its database is closed, and `second`, a client of the same
/// directory, reads. Whatever the database held when `first` opened it, what
/// was committed is on disk when it is closed.
pub proof fn law_answered_write_survives_reopening<E>(
    files: Files,
    first: SqliteClient,
    second: SqliteClient,
    earlier: Seq<CommandState>,
    table_name: Seq<char>,
    key: Seq<char>,
    value: Seq<u8>,
    write: SqliteCommand,
    write_events: Seq<ExchangeEvent<E>>,
    write_response: SqliteResponse,
    read: SqliteCommand,
    read_events: Seq<ExchangeEvent<E>>,
    read_response: SqliteResponse,
)
    requires
        first.path == second.path,
        write@ == (CommandState::Write { table_name, key, value }),
        succeeds(
            write,
            after_all(super::database::opened(files, first.path).committed, earlier),
            write_events,
            write_response,
        ),
        read@ == (CommandState::Read { table_name, key }),
        ({
            let database = super::exchange_laws::exchange_at(
                write,
                after_all(super::database::opened(files, first.path).committed, earlier),
                write_events,
                write_events.len(),
            ).1;
            let closed = super::database::closed(files, first.path, database);
            succeeds(
                read,
                super::database::opened(closed, second.path).committed,
                read_events,
                read_response,
            )
        }),
    ensures
        read_response@ == ResponseState::Value(Some(value)),
{
    let tables = after_all(super::database::opened(files, first.path).committed, earlier);
    let left = super::exchange_laws::left_behind(write, tables, write_events);
    super::exchange_laws::law_responses_are_true(write, tables, write_events, write_response);
    super::exchange_laws::law_responses_are_true(read, left, read_events, read_response);
}

/// Closing a database, at whatever moment of a command, and opening it again
/// leaves it as the command found it or as the command makes it, with no
/// transaction under way.
pub proof fn law_reopening_leaves_no_half_done_command<E>(
    files: Files,
    client: SqliteClient,
    command: SqliteCommand,
    tables: Tables,
    events: Seq<ExchangeEvent<E>>,
)
    requires
        super::exchange_laws::possible(command, tables, events),
    ensures
        ({
            let database = super::exchange_laws::exchange_at(
                command,
                tables,
                events,
                events.len(),
            ).1;
            let again = super::database::opened(
                super::database::closed(files, client.path, database),
                client.path,
            );
            &&& again.working is None
            &&& again.committed == tables || again.committed == super::database::command_effect(
                tables,
                command@,
            )
        }),
{
    super::exchange_laws::law_commands_are_atomic(command, tables, events);
}

/// A read gives back nothing after the key was removed.
pub proof fn law_read_finds_nothing_after_removal<E>(
    tables: Tables,
    table_name: Seq<char>,
    key: Seq<u8>,
    remove: SqliteCommand,
    remove_events: Seq<ExchangeEvent<E>>,
    remove_response: SqliteResponse,
    read: SqliteCommand,
    read_events: Seq<ExchangeEvent<E>>,
    read_response: SqliteResponse,
)
    requires
        super::store::remove_command(table_name, key) == Some(remove@),
        succeeds(remove, tables, remove_events, remove_response),
        super::store::read_command(table_name, key) == Some(read@),
        succeeds(
            read,
            super::exchange_laws::left_behind(remove, tables, remove_events),
            read_events,
            read_response,
        ),
    ensures
        read_response@ == ResponseState::Value(None),
{
    let left = super::exchange_laws::left_behind(remove, tables, remove_events);
    super::exchange_laws::law_responses_are_true(remove, tables, remove_events, remove_response);
    super::exchange_laws::law_responses_are_true(read, left, read_events, read_response);
}

/// A write and a removal answer with the value that the key had before, which
/// is what a read in their place would have given.
pub proof fn law_changes_answer_with_the_previous_value<E>(
    tables: Tables,
    table_name: Seq<char>,
    key: Seq<u8>,
    value: Seq<u8>,
    read: SqliteCommand,
    read_events: Seq<ExchangeEvent<E>>,
    read_response: SqliteResponse,
    change: SqliteCommand,
    change_events: Seq<ExchangeEvent<E>>,
    change_response: SqliteResponse,
)
    requires
        super::store::read_command(table_name, key) == Some(read@),
        succeeds(read, tables, read_events, read_response),
        super::store::write_command(table_name, key, value) == Some(change@)
            || super::store::remove_command(table_name, key) == Some(change@),
        succeeds(change, tables, change_events, change_response),
    ensures
        change_response@ == read_response@,
{
    super::exchange_laws::law_responses_are_true(read, tables, read_events, read_response);
    super::exchange_laws::law_responses_are_true(change, tables, change_events, change_response);
}

/// Making a store that is there already keeps all that it holds, and so does
/// flushing or reading it.
pub proof fn law_opening_a_store_keeps_its_values(tables: Tables, table_name: Seq<char>, key: Seq<char>)
    requires
        super::database::has_table(tables, table_name),
    ensures
        super::database::command_effect(tables, CommandState::Create { table_name }) == tables,
        super::database::command_effect(tables, CommandState::Flush { table_name }) == tables,
        super::database::command_effect(tables, CommandState::Read { table_name, key }) == tables,
{
}

/// A table goes by its name in upper and lower case alike: a read gives back
/// what the write before it wrote, if the two names of the table differ only in
/// the case of their ASCII letters.
pub proof fn law_tables_go_by_either_case<E>(
    tables: Tables,
    written: Seq<char>,
    table_name: Seq<char>,
    key: Seq<u8>,
    value: Seq<u8>,
    write: SqliteCommand,
    write_events: Seq<ExchangeEvent<E>>,
    write_response: SqliteResponse,
    read: SqliteCommand,
    read_events: Seq<ExchangeEvent<E>>,
    read_response: SqliteResponse,
)
    requires
        same_table(written, table_name),
        super::store::write_command(written, key, value) == Some(write@),
        succeeds(write, tables, write_events, write_response),
        super::store::read_command(table_name, key) == Some(read@),
        succeeds(
            read,
            super::exchange_laws::left_behind(write, tables, write_events),
            read_events,
            read_response,
        ),
    ensures
        read_response@ == ResponseState::Value(Some(value)),
{
    let left = super::exchange_laws::left_behind(write, tables, write_events);
    super::exchange_laws::law_responses_are_true(write, tables, write_events, write_response);
    super::exchange_laws::law_responses_are_true(read, left, read_events, read_response);
}

/// The tables after `commands` have succeeded one after the other.
pub open spec fn after_all(tables: Tables, commands: Seq<CommandState>) -> Tables
    decreases commands.len(),
{
    if commands.len() == 0 {
        tables
    } else {
        super::database::command_effect(after_all(tables, commands.drop_last()), commands.last())
    }
}

/// Every one of `commands` names its table plainly, and finds it.
pub open spec fn all_feasible(tables: Tables, commands: Seq<CommandState>) -> bool
    decreases commands.len(),
{
    commands.len() == 0 || {
        &&& all_feasible(tables, commands.drop_last())
        &&& super::database::is_plain(super::database::table_of(commands.last()))
        &&& super::database::feasible(after_all(tables, commands.drop_last()), commands.last())
    }
}

/// Whether two names are names of one table.
pub open spec fn same_table(first: Seq<char>, second: Seq<char>) -> bool {
    super::database::folded(first) == super::database::folded(second)
}

/// The value that the last of `commands` to change `key` in `table_name` gave
/// it; `before` if none of them changes it.
pub open spec fn last_value(
    before: Option<Seq<u8>>,
    commands: Seq<CommandState>,
    table_name: Seq<char>,
    key: Seq<char>,
) -> Option<Seq<u8>>
    decreases commands.len(),
{
    if commands.len() == 0 {
        before
    } else {
        match commands.last() {
            CommandState::Write { table_name: written, key: at, value } if same_table(
                written,
                table_name,
            ) && at == key => Some(value),
            CommandState::Remove { table_name: changed, key: at } if same_table(
                changed,
                table_name,
            ) && at == key => None,
            _ => last_value(before, commands.drop_last(), table_name, key),
        }
    }
}

/// However many commands succeed in between, a key has the value that was last
/// written to it. Commands about other keys or other tables do not touch it.
pub proof fn law_keys_keep_their_last_value(
    tables: Tables,
    commands: Seq<CommandState>,
    table_name: Seq<char>,
    key: Seq<char>,
)
    requires
        super::database::is_plain(table_name),
        all_feasible(tables, commands),
    ensures
        super::database::lookup(after_all(tables, commands), table_name, key) == last_value(
            super::database::lookup(tables, table_name, key),
            commands,
            table_name,
            key,
        ),
    decreases commands.len(),
{
    if commands.len() > 0 {
        law_keys_keep_their_last_value(tables, commands.drop_last(), table_name, key);
    }
}

/// However many commands succeed before a database is closed, a key has the
/// value that was last written to it when the database is opened again.
pub proof fn law_last_values_survive_reopening(
    files: Files,
    path: PathBuf,
    commands: Seq<CommandState>,
    working: Option<Tables>,
    table_name: Seq<char>,
    key: Seq<char>,
)
    requires
        super::database::is_plain(table_name),
        all_feasible(super::database::opened(files, path).committed, commands),
    ensures
        ({
            let before = super::database::opened(files, path).committed;
            let database = Database { committed: after_all(before, commands), working };
            let after = super::database::opened(
                super::database::closed(files, path, database),
                path,
            ).committed;
            super::database::lookup(after, table_name, key) == last_value(
                super::database::lookup(before, table_name, key),
                commands,
                table_name,
                key,
            )
        }),
{
    let before = super::database::opened(files, path).committed;
    law_keys_keep_their_last_value(before, commands, table_name, key);
}

/// A read, a write and a removal of a key are about the same row: that of the
/// whole text which the key is stored under, in the table of the store. A write
/// sets it to the whole value.
pub proof fn law_commands_are_about_the_row_of_the_key(
    table_name: Seq<char>,
    key: Seq<u8>,
    value: Seq<u8>,
)
    ensures
        match super::key::stored_key(key) {
            Some(text) => {
                &&& super::store::read_command(table_name, key) matches Some(
                    CommandState::Read { table_name: of, key: row },
                ) && of == table_name && row == text
                &&& super::store::write_command(table_name, key, value) matches Some(
                    CommandState::Write { table_name: of, key: row, value: set },
                ) && of == table_name && row == text && set == value
                &&& super::store::remove_command(table_name, key) matches Some(
                    CommandState::Remove { table_name: of, key: row },
                ) && of == table_name && row == text
            },
            None => {
                &&& super::store::read_command(table_name, key) is None
                &&& super::store::write_command(table_name, key, value) is None
                &&& super::store::remove_command(table_name, key) is None
            },
        },
{
}

/// Different keys are different rows: a write or a removal under one key leaves
/// what a read under another gives. Two keys are different if they are stored
/// under different texts, or if neither is a content identifier and they differ
/// in any byte.
pub proof fn law_changes_leave_other_keys<E>(
    tables: Tables,
    table_name: Seq<char>,
    key: Seq<u8>,
    other: Seq<u8>,
    value: Seq<u8>,
    before: SqliteCommand,
    before_events: Seq<ExchangeEvent<E>>,
    before_response: SqliteResponse,
    change: SqliteCommand,
    change_events: Seq<ExchangeEvent<E>>,
    change_response: SqliteResponse,
    after: SqliteCommand,
    after_events: Seq<ExchangeEvent<E>>,
    after_response: SqliteResponse,
)
    requires
        super::key::stored_key(key) != super::key::stored_key(other) || (key != other
            && super::key::cid_text(key) is None && super::key::cid_text(other) is None),
        super::store::read_command(table_name, key) == Some(before@),
        succeeds(before, tables, before_events, before_response),
        super::store::write_command(table_name, other, value) == Some(change@)
            || super::store::remove_command(table_name, other) == Some(change@),
        succeeds(change, tables, change_events, change_response),
        super::store::read_command(table_name, key) == Some(after@),
        succeeds(
            after,
            super::exchange_laws::left_behind(change, tables, change_events),
            after_events,
            after_response,
        ),
    ensures
        after_response@ == before_response@,
{
    if super::key::stored_key(key) == super::key::stored_key(other) {
        super::key::law_different_keys_have_different_texts(key, other);
    }
    let left = super::exchange_laws::left_behind(change, tables, change_events);
    super::exchange_laws::law_responses_are_true(before, tables, before_events, before_response);
    super::exchange_laws::law_responses_are_true(change, tables, change_events, change_response);
    super::exchange_laws::law_responses_are_true(after, left, after_events, after_response);
}

/// Stores with different names are different tables: a write or a removal in
/// one leaves what a read in the other gives, if the names are plain and differ
/// in more than the case of their ASCII letters.
pub proof fn law_changes_leave_other_stores<E>(
    tables: Tables,
    table_name: Seq<char>,
    other_table: Seq<char>,
    key: Seq<u8>,
    other: Seq<u8>,
    value: Seq<u8>,
    before: SqliteCommand,
    before_events: Seq<ExchangeEvent<E>>,
    before_response: SqliteResponse,
    change: SqliteCommand,
    change_events: Seq<ExchangeEvent<E>>,
    change_response: SqliteResponse,
    after: SqliteCommand,
    after_events: Seq<ExchangeEvent<E>>,
    after_response: SqliteResponse,
)
    requires
        super::database::is_plain(table_name),
        super::database::is_plain(other_table),
        !same_table(table_name, other_table),
        super::store::read_command(table_name, key) == Some(before@),
        succeeds(before, tables, before_events, before_response),
        super::store::write_command(other_table, other, value) == Some(change@)
            || super::store::remove_command(other_table, other) == Some(change@),
        succeeds(change, tables, change_events, change_response),
        super::store::read_command(table_name, key) == Some(after@),
        succeeds(
            after,
            super::exchange_laws::left_behind(change, tables, change_events),
            after_events,
            after_response,
        ),
    ensures
        after_response@ == before_response@,
{
    let left = super::exchange_laws::left_behind(change, tables, change_events);
    super::exchange_laws::law_responses_are_true(before, tables, before_events, before_response);
    super::exchange_laws::law_responses_are_true(change, tables, change_events, change_response);
    super::exchange_laws::law_responses_are_true(after, left, after_events, after_response);
}

} // verus!
