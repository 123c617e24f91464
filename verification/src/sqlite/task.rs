//! The task that opens a database and works off commands as they come in.

use std::path::PathBuf;
use vstd::prelude::*;

use super::command::{SqliteCommand, SqliteResponse};
use super::store::DATABASE_FILE;

verus! {

/// Where the task stands.
pub enum TaskPhase<E> {
    /// The directory of the database is to be created, with those it lies in.
    CreateDirectory,
    /// The database is to be opened.
    Open,
    /// The next command is to be awaited.
    Receive,
    /// `command` is to be processed: see
    /// [`process_message`](super::exchange::process_message).
    Process { command: SqliteCommand },
    /// The sender of the command is to be told what came of it.
    Respond { result: Result<SqliteResponse, E> },
    /// All senders of commands are gone.
    Done,
    /// The database could not be opened.
    Failed { error: E },
}

/// What has to be done next.
pub enum TaskAction<'a, E> {
    /// Create a directory, and those it lies in, unless they exist.
    CreateDirectory { path: &'a PathBuf },
    /// Open the database in the file `file` of a directory.
    Open { path: &'a PathBuf, file: &'static str },
    /// Await the next command.
    Receive,
    /// Process a command.
    Process { command: &'a SqliteCommand },
    /// Tell the sender of the command what came of it.
    Respond { result: &'a Result<SqliteResponse, E> },
    /// Nothing is left to do: see [`SqliteTask::outcome`].
    Finish,
}

/// What came of an action.
pub enum TaskEvent<E> {
    DirectoryCreated,
    Opened,
    /// A command, or nothing once all senders are gone.
    Received { command: Option<SqliteCommand> },
    Processed { result: Result<SqliteResponse, E> },
    /// The sender was told, or is gone.
    Responded,
    /// The action did not succeed.
    Failed { error: E },
}

/// The task that works off commands.
pub struct SqliteTask<E> {
    /// The directory of the database.
    pub path: PathBuf,
    pub phase: TaskPhase<E>,
}

/// Starts the task for the database in the directory `path`.
pub fn sqlite_task<E>(path: PathBuf) -> (task: SqliteTask<E>)
    ensures
        task.path == path,
        task.phase == TaskPhase::<E>::CreateDirectory,
{
    SqliteTask { path, phase: TaskPhase::CreateDirectory }
}

impl<E> SqliteTask<E> {
    /// The phase that follows once the pending action has led to `event`; the
    /// same phase where `event` is no answer to that action.
    pub open spec fn phase_after(self, event: TaskEvent<E>) -> TaskPhase<E> {
        match (self.phase, event) {
            (TaskPhase::CreateDirectory, TaskEvent::DirectoryCreated) => TaskPhase::Open,
            (TaskPhase::CreateDirectory, TaskEvent::Failed { error }) => TaskPhase::Failed { error },
            (TaskPhase::Open, TaskEvent::Opened) => TaskPhase::Receive,
            (TaskPhase::Open, TaskEvent::Failed { error }) => TaskPhase::Failed { error },
            (TaskPhase::Receive, TaskEvent::Received { command: Some(command) }) =>
                TaskPhase::Process { command },
            (TaskPhase::Receive, TaskEvent::Received { command: None }) => TaskPhase::Done,
            (TaskPhase::Process { .. }, TaskEvent::Processed { result }) =>
                TaskPhase::Respond { result },
            (TaskPhase::Respond { .. }, TaskEvent::Responded) => TaskPhase::Receive,
            _ => self.phase,
        }
    }

    /// What has to be done next.
    pub open spec fn pending(&self) -> TaskAction<'_, E> {
        match &self.phase {
            TaskPhase::CreateDirectory => TaskAction::CreateDirectory { path: &self.path },
            TaskPhase::Open => TaskAction::Open { path: &self.path, file: DATABASE_FILE },
            TaskPhase::Receive => TaskAction::Receive,
            TaskPhase::Process { command } => TaskAction::Process { command },
            TaskPhase::Respond { result } => TaskAction::Respond { result },
            TaskPhase::Done => TaskAction::Finish,
            TaskPhase::Failed { .. } => TaskAction::Finish,
        }
    }

    /// What has to be done next.
    pub fn action(&self) -> (action: TaskAction<'_, E>)
        ensures
            action == self.pending(),
    {
        match &self.phase {
            TaskPhase::CreateDirectory => TaskAction::CreateDirectory { path: &self.path },
            TaskPhase::Open => TaskAction::Open { path: &self.path, file: DATABASE_FILE },
            TaskPhase::Receive => TaskAction::Receive,
            TaskPhase::Process { command } => TaskAction::Process { command },
            TaskPhase::Respond { result } => TaskAction::Respond { result },
            TaskPhase::Done => TaskAction::Finish,
            TaskPhase::Failed { .. } => TaskAction::Finish,
        }
    }

    /// Takes in what came of the pending action. An event that is no answer
    /// to that action changes nothing.
    pub fn step(self, event: TaskEvent<E>) -> (task: Self)
        ensures
            task.path == self.path,
            task.phase == self.phase_after(event),
    {
        let SqliteTask { path, phase } = self;
        let phase = match (phase, event) {
            (TaskPhase::CreateDirectory, TaskEvent::DirectoryCreated) => TaskPhase::Open,
            (TaskPhase::CreateDirectory, TaskEvent::Failed { error }) => TaskPhase::Failed { error },
            (TaskPhase::Open, TaskEvent::Opened) => TaskPhase::Receive,
            (TaskPhase::Open, TaskEvent::Failed { error }) => TaskPhase::Failed { error },
            (TaskPhase::Receive, TaskEvent::Received { command: Some(command) }) =>
                TaskPhase::Process { command },
            (TaskPhase::Receive, TaskEvent::Received { command: None }) => TaskPhase::Done,
            (TaskPhase::Process { .. }, TaskEvent::Processed { result }) =>
                TaskPhase::Respond { result },
            (TaskPhase::Respond { .. }, TaskEvent::Responded) => TaskPhase::Receive,
            (phase, _) => phase,
        };
        SqliteTask { path, phase }
    }

    /// Whether the task has ended, and the error that ended it if one did;
    /// `None` while it is under way.
    pub fn outcome(self) -> (outcome: Option<Result<(), E>>)
        ensures
            match self.phase {
                TaskPhase::Done => outcome == Some(Ok::<(), E>(())),
                TaskPhase::Failed { error } => outcome == Some(Err::<(), E>(error)),
                _ => outcome is None,
            },
    {
        match self.phase {
            TaskPhase::Done => Some(Ok(())),
            TaskPhase::Failed { error } => Some(Err(error)),
            _ => None,
        }
    }
}

/// What a task has done for the senders of commands.
#[verifier::ext_equal]
pub struct TaskLog<E> {
    /// The commands that came in.
    pub received: Seq<SqliteCommand>,
    /// The commands that were processed, each with its result.
    pub processed: Seq<(SqliteCommand, Result<SqliteResponse, E>)>,
    /// The results that were told.
    pub told: Seq<Result<SqliteResponse, E>>,
}

/// A task, begun as `task`, after `events`, and what it has done by then.
pub open spec fn task_through<E>(task: SqliteTask<E>, events: Seq<TaskEvent<E>>) -> (
    SqliteTask<E>,
    TaskLog<E>,
)
    decreases events.len(),
{
    if events.len() == 0 {
        (
            task,
            TaskLog { received: Seq::empty(), processed: Seq::empty(), told: Seq::empty() },
        )
    } else {
        let (before, log) = task_through(task, events.drop_last());
        let event = events.last();
        (
            SqliteTask { path: before.path, phase: before.phase_after(event) },
            match (before.pending(), event) {
                (TaskAction::Receive, TaskEvent::Received { command: Some(command) }) => TaskLog {
                    received: log.received.push(command),
                    ..log
                },
                (TaskAction::Process { command }, TaskEvent::Processed { result }) => TaskLog {
                    processed: log.processed.push((*command, result)),
                    ..log
                },
                (TaskAction::Respond { result }, TaskEvent::Responded) => TaskLog {
                    told: log.told.push(*result),
                    ..log
                },
                _ => log,
            },
        )
    }
}

/// The commands of `processed`.
pub open spec fn commands_of<E>(
    processed: Seq<(SqliteCommand, Result<SqliteResponse, E>)>,
) -> Seq<SqliteCommand> {
    Seq::new(processed.len(), |i: int| processed[i].0)
}

/// The results of `processed`.
pub open spec fn results_of<E>(
    processed: Seq<(SqliteCommand, Result<SqliteResponse, E>)>,
) -> Seq<Result<SqliteResponse, E>> {
    Seq::new(processed.len(), |i: int| processed[i].1)
}

/// Commands are processed one at a time, in the order in which they come in,
/// and each sender is told the result of its own command: whenever the task
/// awaits the next command, and when it is done, every command that came in has
/// been processed once and answered once. A task that has not opened its
/// database, or could not open it, has taken in no command.
pub proof fn law_every_command_is_answered<E>(task: SqliteTask<E>, events: Seq<TaskEvent<E>>)
    requires
        task.phase is CreateDirectory,
    ensures
        ({
            let (reached, log) = task_through(task, events);
            match reached.phase {
                TaskPhase::Process { command } => {
                    &&& log.received == commands_of(log.processed).push(command)
                    &&& log.told == results_of(log.processed)
                },
                TaskPhase::Respond { result } => {
                    &&& log.received == commands_of(log.processed)
                    &&& results_of(log.processed) == log.told.push(result)
                },
                TaskPhase::Receive | TaskPhase::Done => {
                    &&& log.received == commands_of(log.processed)
                    &&& log.told == results_of(log.processed)
                },
                TaskPhase::CreateDirectory | TaskPhase::Open | TaskPhase::Failed { .. } => {
                    &&& log.received.len() == 0
                    &&& log.processed.len() == 0
                    &&& log.told.len() == 0
                },
            }
        }),
    decreases events.len(),
{
    if events.len() > 0 {
        law_every_command_is_answered(task, events.drop_last());
        let (before, earlier) = task_through(task, events.drop_last());
        let (reached, log) = task_through(task, events);
        if let TaskPhase::Process { command } = before.phase {
            if let TaskEvent::Processed { result } = events.last() {
                assert(commands_of(log.processed) =~= commands_of(earlier.processed).push(command));
                assert(results_of(log.processed) =~= results_of(earlier.processed).push(result));
            }
        }
    }
}

/// Whether `event` is an answer to `action`.
pub open spec fn answers<E>(action: TaskAction<'_, E>, event: TaskEvent<E>) -> bool {
    match (action, event) {
        (TaskAction::CreateDirectory { .. }, TaskEvent::DirectoryCreated) => true,
        (TaskAction::CreateDirectory { .. }, TaskEvent::Failed { .. }) => true,
        (TaskAction::Open { .. }, TaskEvent::Opened) => true,
        (TaskAction::Open { .. }, TaskEvent::Failed { .. }) => true,
        (TaskAction::Receive, TaskEvent::Received { .. }) => true,
        (TaskAction::Process { .. }, TaskEvent::Processed { .. }) => true,
        (TaskAction::Respond { .. }, TaskEvent::Responded) => true,
        _ => false,
    }
}

/// There is nothing left to do exactly at the end.
/// An event has an effect exactly if it answers the action that was asked for.
/// An answer that the action failed ends the task with that error, and no other
/// answer ends it with an error.
pub proof fn law_task_goes_by_answers<E>(task: SqliteTask<E>, event: TaskEvent<E>)
    ensures
        task.pending() is Finish <==> task.phase is Done || task.phase is Failed,
        task.phase_after(event) == task.phase <==> !answers(task.pending(), event),
        answers(task.pending(), event) ==> match event {
            TaskEvent::Failed { error } => task.phase_after(event) == (TaskPhase::Failed::<E> {
                error,
            }),
            _ => task.phase_after(event) !is Failed,
        },
{
}

/// What is asked for. The directory of the task is created, and the database
/// in the file `database.db` of it opened. Then every command that comes in is
/// processed, its sender told exactly the result, and the next one awaited. The
/// task ends with success once no more commands can come.
pub proof fn law_task_takes_these_steps<E>(
    path: PathBuf,
    command: SqliteCommand,
    result: Result<SqliteResponse, E>,
)
    ensures
        ({
            let start = SqliteTask::<E> { path, phase: TaskPhase::CreateDirectory };
            let created = SqliteTask {
                path,
                phase: start.phase_after(TaskEvent::DirectoryCreated),
            };
            let waiting = SqliteTask { path, phase: created.phase_after(TaskEvent::Opened) };
            let received = SqliteTask {
                path,
                phase: waiting.phase_after(TaskEvent::Received { command: Some(command) }),
            };
            let processed = SqliteTask {
                path,
                phase: received.phase_after(TaskEvent::Processed { result }),
            };
            &&& start.pending() matches TaskAction::CreateDirectory { path: at } && *at == path
            &&& created.pending() matches TaskAction::Open { path: at, file } && *at == path && file@
                == "database.db"@
            &&& waiting.pending() is Receive
            &&& received.pending() matches TaskAction::Process { command: of } && *of == command
            &&& processed.pending() matches TaskAction::Respond { result: of } && *of == result
            &&& processed.phase_after(TaskEvent::Responded) == waiting.phase
            &&& waiting.phase_after(TaskEvent::Received { command: None }) is Done
        }),
{
}

} // verus!
