//! The task that works off syndication jobs as they come in.

use vstd::prelude::*;

use super::checkpoint::SyndicationJob;

verus! {

/// Where the task stands. `R` is the type of revisions, `C` that of sphere
/// contexts.
pub enum TaskPhase<R, C, E> {
    /// The client of the IPFS node is to be made.
    Connect,
    /// The next job is to be awaited.
    Receive,
    /// `job` is to be processed.
    Process { job: SyndicationJob<R, C> },
    /// The source of jobs has closed.
    Done,
    /// The client of the IPFS node could not be made.
    Failed { error: E },
}

/// What has to be done next.
pub enum TaskAction<'a, R, C> {
    /// Make a client of the IPFS node at `ipfs_api`.
    Connect { ipfs_api: &'a String },
    /// Await the next job.
    Receive,
    /// Process `job`.
    Process { job: &'a SyndicationJob<R, C> },
    /// Nothing is left to do: see [`SyndicationTask::outcome`].
    Finish,
}

/// What came of an action.
pub enum TaskEvent<R, C, E> {
    Connected,
    /// The client could not be made.
    ConnectFailed { error: E },
    /// A job, or nothing once the source of jobs has closed.
    Received { job: Option<SyndicationJob<R, C>> },
    /// The job was processed, or ended early; either way it is over.
    Processed { result: Result<(), E> },
}

/// The task that works off syndication jobs.
pub struct SyndicationTask<R, C, E> {
    pub ipfs_api: String,
    pub phase: TaskPhase<R, C, E>,
}

/// Starts a task that waits for jobs and attempts to syndicate to the IPFS
/// node at `ipfs_api`.
pub fn start_ipfs_syndication<R, C, E>(ipfs_api: String) -> (task: SyndicationTask<R, C, E>)
    ensures
        task.ipfs_api == ipfs_api,
        task.phase == TaskPhase::<R, C, E>::Connect,
{
    SyndicationTask { ipfs_api, phase: TaskPhase::Connect }
}

impl<R, C, E> SyndicationTask<R, C, E> {
    /// The phase that follows once the pending action has led to `event`; the
    /// same phase where `event` is no answer to that action.
    pub open spec fn phase_after(self, event: TaskEvent<R, C, E>) -> TaskPhase<R, C, E> {
        match (self.phase, event) {
            (TaskPhase::Connect, TaskEvent::Connected) => TaskPhase::Receive,
            (TaskPhase::Connect, TaskEvent::ConnectFailed { error }) => TaskPhase::Failed { error },
            (TaskPhase::Receive, TaskEvent::Received { job: Some(job) }) => TaskPhase::Process { job },
            (TaskPhase::Receive, TaskEvent::Received { job: None }) => TaskPhase::Done,
            (TaskPhase::Process { .. }, TaskEvent::Processed { .. }) => TaskPhase::Receive,
            _ => self.phase,
        }
    }

    /// What has to be done next.
    pub open spec fn pending(&self) -> TaskAction<'_, R, C> {
        match &self.phase {
            TaskPhase::Connect => TaskAction::Connect { ipfs_api: &self.ipfs_api },
            TaskPhase::Receive => TaskAction::Receive,
            TaskPhase::Process { job } => TaskAction::Process { job },
            TaskPhase::Done => TaskAction::Finish,
            TaskPhase::Failed { .. } => TaskAction::Finish,
        }
    }

    /// What has to be done next.
    pub fn action(&self) -> (action: TaskAction<'_, R, C>)
        ensures
            action == self.pending(),
    {
        match &self.phase {
            TaskPhase::Connect => TaskAction::Connect { ipfs_api: &self.ipfs_api },
            TaskPhase::Receive => TaskAction::Receive,
            TaskPhase::Process { job } => TaskAction::Process { job },
            TaskPhase::Done => TaskAction::Finish,
            TaskPhase::Failed { .. } => TaskAction::Finish,
        }
    }

    /// Takes in what came of the pending action. An event that is no answer
    /// to that action changes nothing.
    pub fn step(self, event: TaskEvent<R, C, E>) -> (task: Self)
        ensures
            task.ipfs_api == self.ipfs_api,
            task.phase == self.phase_after(event),
    {
        let SyndicationTask { ipfs_api, phase } = self;
        let phase = match (phase, event) {
            (TaskPhase::Connect, TaskEvent::Connected) => TaskPhase::Receive,
            (TaskPhase::Connect, TaskEvent::ConnectFailed { error }) => TaskPhase::Failed { error },
            (TaskPhase::Receive, TaskEvent::Received { job: Some(job) }) => TaskPhase::Process { job },
            (TaskPhase::Receive, TaskEvent::Received { job: None }) => TaskPhase::Done,
            (TaskPhase::Process { .. }, TaskEvent::Processed { .. }) => TaskPhase::Receive,
            (phase, _) => phase,
        };
        SyndicationTask { ipfs_api, phase }
    }

    /// Whether the task has ended, and the error that ended it if one did;
    /// `None` while it is under way.
    pub fn outcome(self) -> (outcome: Option<Result<(), E>>)
        ensures
            match self.phase {
                TaskPhase::Done => outcome == Some(Ok::<(), E>(())),
                TaskPhase::Failed { error } => outcome == Some(Err::<(), E>(error)),
                _ => outcome is None,
            },
    {
        match self.phase {
            TaskPhase::Done => Some(Ok(())),
            TaskPhase::Failed { error } => Some(Err(error)),
            _ => None,
        }
    }
}

/// A job that ends early does not end the task: whatever comes of a job, the
/// task goes on to await the next one.
pub proof fn law_failed_job_does_not_end_the_task<R, C, E>(
    task: SyndicationTask<R, C, E>,
    result: Result<(), E>,
)
    requires
        task.phase is Process,
    ensures
        task.phase_after(TaskEvent::Processed { result }) == TaskPhase::<R, C, E>::Receive,
{
}

/// What a task has done for the senders of jobs.
#[verifier::ext_equal]
pub struct TaskLog<R, C, E> {
    /// The jobs that came in.
    pub received: Seq<SyndicationJob<R, C>>,
    /// The jobs that were processed, each with what came of it.
    pub processed: Seq<(SyndicationJob<R, C>, Result<(), E>)>,
}

/// The task for the IPFS node at `ipfs_api` from its start through `events`:
/// where it stands, and what it has done.
pub open spec fn task_through<R, C, E>(
    ipfs_api: String,
    events: Seq<TaskEvent<R, C, E>>,
) -> (SyndicationTask<R, C, E>, TaskLog<R, C, E>)
    decreases events.len(),
{
    if events.len() == 0 {
        (
            SyndicationTask { ipfs_api, phase: TaskPhase::Connect },
            TaskLog { received: Seq::empty(), processed: Seq::empty() },
        )
    } else {
        let (before, log) = task_through(ipfs_api, events.drop_last());
        let event = events.last();
        (
            SyndicationTask { ipfs_api, phase: before.phase_after(event) },
            match (before.pending(), event) {
                (TaskAction::Receive, TaskEvent::Received { job: Some(job) }) => TaskLog {
                    received: log.received.push(job),
                    ..log
                },
                (TaskAction::Process { job }, TaskEvent::Processed { result }) => TaskLog {
                    processed: log.processed.push((*job, result)),
                    ..log
                },
                _ => log,
            },
        )
    }
}

/// The jobs of `processed`.
pub open spec fn jobs_of<R, C, E>(
    processed: Seq<(SyndicationJob<R, C>, Result<(), E>)>,
) -> Seq<SyndicationJob<R, C>> {
    Seq::new(processed.len(), |i: int| processed[i].0)
}

/// Jobs are processed one at a time, each once and in the order in which they
/// come in, whatever comes of them. Whenever the task awaits the next job, and
/// when it ends with success, every job that came in has been processed. A task
/// that fails has taken in no job.
pub proof fn law_every_job_is_processed<R, C, E>(
    ipfs_api: String,
    events: Seq<TaskEvent<R, C, E>>,
)
    ensures
        ({
            let (reached, log) = task_through(ipfs_api, events);
            match reached.phase {
                TaskPhase::Connect | TaskPhase::Failed { .. } => {
                    &&& log.received.len() == 0
                    &&& log.processed.len() == 0
                },
                TaskPhase::Process { job } => log.received == jobs_of(log.processed).push(job),
                TaskPhase::Receive | TaskPhase::Done => log.received == jobs_of(log.processed),
            }
        }),
    decreases events.len(),
{
    if events.len() > 0 {
        law_every_job_is_processed(ipfs_api, events.drop_last());
        let (before, earlier) = task_through(ipfs_api, events.drop_last());
        let (reached, log) = task_through(ipfs_api, events);
        if let TaskPhase::Process { job } = before.phase {
            if let TaskEvent::Processed { result } = events.last() {
                assert(jobs_of(log.processed) =~= jobs_of(earlier.processed).push(job));
            }
        }
    } else {
        let log = task_through(ipfs_api, events).1;
        assert(log.received =~= jobs_of(log.processed));
    }
}

/// Whether `event` is an answer to `action`.
pub open spec fn answers<R, C, E>(
    action: TaskAction<'_, R, C>,
    event: TaskEvent<R, C, E>,
) -> bool {
    match (action, event) {
        (TaskAction::Connect { .. }, TaskEvent::Connected) => true,
        (TaskAction::Connect { .. }, TaskEvent::ConnectFailed { .. }) => true,
        (TaskAction::Receive, TaskEvent::Received { .. }) => true,
        (TaskAction::Process { .. }, TaskEvent::Processed { .. }) => true,
        _ => false,
    }
}

/// There is nothing left to do exactly at the end.
/// An event has an effect exactly if it answers the action that was asked for,
/// and only a failed connection ends the task with an error, which is that of
/// the connection.
pub proof fn law_task_goes_by_answers<R, C, E>(
    task: SyndicationTask<R, C, E>,
    event: TaskEvent<R, C, E>,
)
    ensures
        task.pending() is Finish <==> task.phase is Done || task.phase is Failed,
        task.phase_after(event) == task.phase <==> !answers(task.pending(), event),
        answers(task.pending(), event) ==> match event {
            TaskEvent::ConnectFailed { error } => task.phase_after(event) == (TaskPhase::Failed::<
                R,
                C,
                E,
            > { error }),
            _ => task.phase_after(event) !is Failed,
        },
{
}

/// What is asked for. The IPFS node that was named is connected to. Then every
/// job that comes in is processed, and the next one awaited, whatever came of
/// it. The task ends with success once no more jobs can come.
pub proof fn law_task_takes_these_steps<R, C, E>(
    ipfs_api: String,
    job: SyndicationJob<R, C>,
    result: Result<(), E>,
)
    ensures
        ({
            let start = SyndicationTask::<R, C, E> { ipfs_api, phase: TaskPhase::Connect };
            let waiting = SyndicationTask {
                ipfs_api,
                phase: start.phase_after(TaskEvent::Connected),
            };
            let received = SyndicationTask {
                ipfs_api,
                phase: waiting.phase_after(TaskEvent::Received { job: Some(job) }),
            };
            &&& start.pending() matches TaskAction::Connect { ipfs_api: at } && *at == ipfs_api
            &&& waiting.pending() is Receive
            &&& received.pending() matches TaskAction::Process { job: of } && *of == job
            &&& received.phase_after(TaskEvent::Processed { result }) == waiting.phase
            &&& waiting.phase_after(TaskEvent::Received { job: None }) is Done
        }),
{
}

} // verus!
