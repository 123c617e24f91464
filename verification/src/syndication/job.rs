//! Processing of one syndication job.
//!
//! A job finds the counterpart sphere, from the revision of the job or, if that
//! does not tell of it, from the latest version of the local sphere, and the
//! revision at which it was last syndicated to the IPFS node at hand, uploads the blocks of every revision
//! since, and records a new checkpoint. A revision that cannot be uploaded does
//! not keep the later ones from being tried, but the checkpoint stays before
//! it, so that the next job tries it again. Any other failure ends the job.

use deterministic_bloom::const_size::BloomFilter;
use vstd::prelude::*;

use super::checkpoint::{checkpoint_key, SyndicationCheckpoint, SyndicationJob};
use super::filter::{empty_filter, insert_all};
use crate::content::ContentKind;

verus! {

/// Why a job ended early.
#[derive(Debug)]
pub enum JobError<E> {
    /// The IPFS node could not be identified: see
    /// [`identify_failure`](super::checkpoint::identify_failure).
    Unidentified { error: E },
    /// Some other step did not succeed.
    Step { error: E },
}

/// Where the processing of a job stands. `R` is the type of revisions, `D`
/// that of identities of spheres.
pub enum JobPhase<R, D, E> {
    /// The IPFS node is to be identified.
    IdentifyNode,
    /// The database of the local sphere is to be looked up.
    OpenDatabase,
    /// The identity of the counterpart sphere is to be looked up.
    ReadCounterpart,
    /// The content of the local sphere at the revision of the job is to be
    /// loaded.
    LoadContent { counterpart: D },
    /// The revision of the counterpart sphere is to be looked up in it.
    RequireRevision { counterpart: D },
    /// The content of the latest version of the local sphere is to be loaded.
    LoadLatestContent { counterpart: D },
    /// The revision of the counterpart sphere is to be looked up in it.
    RequireLatestRevision { counterpart: D },
    /// The latest checkpoint is to be looked up.
    ReadCheckpoint { sphere: R },
    /// That checkpoint is to be read and decoded.
    DecodeCheckpoint { sphere: R },
    /// The history since the checkpoint is to be listed.
    Slice { sphere: R, ancestor: Option<R> },
    /// The blocks of `timeline[next]` are to be uploaded. The first upload to
    /// fail, if one has failed, was that of `timeline[failed]`.
    Upload { ancestor: Option<R>, timeline: Vec<R>, next: usize, failed: Option<usize> },
    /// The new checkpoint is to be written.
    WriteCheckpoint { ancestor: Option<R>, timeline: Vec<R>, failed: Option<usize> },
    /// What was written is to be saved.
    Save,
    Done,
    Failed { error: JobError<E> },
}

/// What has to be done next.
pub enum JobAction<'a, R, D> {
    /// Ask the IPFS node for its identity.
    IdentifyNode,
    /// Look up the database of the local sphere.
    OpenDatabase,
    /// Look up the identity of the counterpart sphere in the database.
    ReadCounterpart,
    /// Load the content of the local sphere at `revision`.
    LoadContent { revision: &'a R },
    /// Load the content of the latest version of the local sphere.
    LoadLatestContent,
    /// Look up the revision of `counterpart` in the content that was loaded.
    RequireRevision { counterpart: &'a D },
    /// Look up what the local sphere stores under `key`.
    ReadCheckpoint { key: &'a String },
    /// Read what was found, and decode a checkpoint from it.
    DecodeCheckpoint,
    /// List the revisions up to `sphere` that follow `ancestor`, or all of
    /// them if there is no ancestor, the oldest first.
    Slice { sphere: &'a R, ancestor: &'a Option<R> },
    /// Upload the blocks of `revision` to the IPFS node.
    Upload { revision: &'a R },
    /// Write a checkpoint to the latest version of the local sphere.
    WriteCheckpoint {
        key: &'a String,
        kind: ContentKind,
        revision: &'a R,
        syndicated_blocks: &'a BloomFilter<256, 30>,
    },
    /// Save the local sphere.
    Save,
    /// Nothing is left to do: see [`ProcessJob::outcome`].
    Finish,
}

/// An action, seen as a mathematical value.
#[verifier::ext_equal]
pub enum JobRequest<R, D> {
    IdentifyNode,
    OpenDatabase,
    ReadCounterpart,
    LoadContent { revision: R },
    LoadLatestContent,
    RequireRevision { counterpart: D },
    ReadCheckpoint { key: Seq<char> },
    DecodeCheckpoint,
    Slice { sphere: R, ancestor: Option<R> },
    Upload { revision: R },
    WriteCheckpoint {
        key: Seq<char>,
        kind: ContentKind,
        revision: R,
        /// The places that are marked in the filter of syndicated blocks.
        places: Set<int>,
    },
    Save,
    Finish,
}

impl<'a, R, D> View for JobAction<'a, R, D> {
    type V = JobRequest<R, D>;

    open spec fn view(&self) -> JobRequest<R, D> {
        match self {
            JobAction::IdentifyNode => JobRequest::IdentifyNode,
            JobAction::OpenDatabase => JobRequest::OpenDatabase,
            JobAction::ReadCounterpart => JobRequest::ReadCounterpart,
            JobAction::LoadContent { revision } => JobRequest::LoadContent { revision: **revision },
            JobAction::LoadLatestContent => JobRequest::LoadLatestContent,
            JobAction::RequireRevision { counterpart } => JobRequest::RequireRevision {
                counterpart: **counterpart,
            },
            JobAction::ReadCheckpoint { key } => JobRequest::ReadCheckpoint { key: key@ },
            JobAction::DecodeCheckpoint => JobRequest::DecodeCheckpoint,
            JobAction::Slice { sphere, ancestor } => JobRequest::Slice {
                sphere: **sphere,
                ancestor: **ancestor,
            },
            JobAction::Upload { revision } => JobRequest::Upload { revision: **revision },
            JobAction::WriteCheckpoint { key, kind, revision, syndicated_blocks } =>
                JobRequest::WriteCheckpoint {
                    key: key@,
                    kind: *kind,
                    revision: **revision,
                    places: super::filter::filter_places(**syndicated_blocks),
                },
            JobAction::Save => JobRequest::Save,
            JobAction::Finish => JobRequest::Finish,
        }
    }
}

/// What came of an action.
pub enum JobEvent<R, D, E> {
    NodeIdentified { identity: String },
    DatabaseOpened,
    CounterpartFound { counterpart: D },
    ContentLoaded,
    /// There is no content at the revision that was asked for.
    ContentMissing,
    RevisionFound { revision: R },
    /// The content does not tell of the counterpart sphere.
    RevisionMissing { error: E },
    /// What is stored under the key of the checkpoint: nothing, or something
    /// of a certain kind, if it tells its kind.
    CheckpointFound { file: Option<Option<ContentKind>> },
    CheckpointDecoded { checkpoint: SyndicationCheckpoint<R> },
    Sliced { timeline: Vec<R> },
    /// The blocks with the addresses `blocks` were uploaded.
    Uploaded { blocks: Vec<Vec<u8>> },
    /// The blocks could not be uploaded.
    UploadFailed,
    CheckpointWritten,
    Saved,
    /// The action did not succeed.
    Failed { error: E },
}

/// The processing of a job.
pub struct ProcessJob<R, C, D, E> {
    pub job: SyndicationJob<R, C>,
    /// The key of the checkpoint, once the IPFS node is identified.
    pub checkpoint_key: String,
    /// The blocks that have been syndicated to the IPFS node.
    pub syndicated_blocks: BloomFilter<256, 30>,
    pub phase: JobPhase<R, D, E>,
}

/// The processing of a job, seen as a mathematical value.
#[verifier::ext_equal]
pub struct JobState<R, C, D, E> {
    pub revision: R,
    pub context: C,
    pub checkpoint_key: Seq<char>,
    /// The places that are marked in the filter of syndicated blocks.
    pub places: Set<int>,
    pub phase: JobPhase<R, D, E>,
}

impl<R, C, D, E> View for ProcessJob<R, C, D, E> {
    type V = JobState<R, C, D, E>;

    open spec fn view(&self) -> JobState<R, C, D, E> {
        JobState {
            revision: self.job.revision,
            context: self.job.context,
            checkpoint_key: self.checkpoint_key@,
            places: super::filter::filter_places(self.syndicated_blocks),
            phase: self.phase,
        }
    }
}

/// The place of the first upload to fail, once that of `timeline[next]` has
/// failed too.
pub open spec fn first_failed(failed: Option<usize>, next: usize) -> Option<usize> {
    match failed {
        Some(place) => Some(place),
        None => Some(next),
    }
}

/// The last spot in the history of a sphere that was successfully syndicated,
/// once the upload of all of `timeline` has been tried: the revision of the
/// job if no upload failed, or else the one before the first that failed, which
/// is that of the earlier checkpoint if the very first failed.
pub open spec fn syndicated_up_to<R>(
    revision: R,
    ancestor: Option<R>,
    timeline: Seq<R>,
    failed: Option<usize>,
) -> Option<R> {
    match failed {
        None => Some(revision),
        Some(place) => if place == 0 {
            ancestor
        } else {
            Some(timeline[place - 1])
        },
    }
}

impl<R, C, D, E> JobState<R, C, D, E> {
    /// The start of the processing of a job.
    pub open spec fn start(revision: R, context: C) -> Self {
        JobState {
            revision,
            context,
            checkpoint_key: Seq::empty(),
            places: Set::empty(),
            phase: JobPhase::IdentifyNode,
        }
    }

    /// An upload that is to be done, and one that has failed, is one of the
    /// timeline, and a checkpoint that is to be written has a revision.
    pub open spec fn wf(self) -> bool {
        match self.phase {
            JobPhase::Upload { timeline, next, failed, .. } => {
                &&& next < timeline@.len()
                &&& failed matches Some(place) ==> place < next
            },
            JobPhase::WriteCheckpoint { ancestor, timeline, failed } => {
                &&& failed matches Some(place) ==> place < timeline@.len()
                &&& syndicated_up_to(self.revision, ancestor, timeline@, failed) is Some
            },
            _ => true,
        }
    }

    /// What has to be done next.
    pub open spec fn request(self) -> JobRequest<R, D> {
        match self.phase {
            JobPhase::IdentifyNode => JobRequest::IdentifyNode,
            JobPhase::OpenDatabase => JobRequest::OpenDatabase,
            JobPhase::ReadCounterpart => JobRequest::ReadCounterpart,
            JobPhase::LoadContent { .. } => JobRequest::LoadContent { revision: self.revision },
            JobPhase::RequireRevision { counterpart } => JobRequest::RequireRevision {
                counterpart,
            },
            JobPhase::LoadLatestContent { .. } => JobRequest::LoadLatestContent,
            JobPhase::RequireLatestRevision { counterpart } => JobRequest::RequireRevision {
                counterpart,
            },
            JobPhase::ReadCheckpoint { .. } => JobRequest::ReadCheckpoint {
                key: self.checkpoint_key,
            },
            JobPhase::DecodeCheckpoint { .. } => JobRequest::DecodeCheckpoint,
            JobPhase::Slice { sphere, ancestor } => JobRequest::Slice { sphere, ancestor },
            JobPhase::Upload { timeline, next, .. } => JobRequest::Upload {
                revision: timeline@[next as int],
            },
            JobPhase::WriteCheckpoint { ancestor, timeline, failed } => JobRequest::WriteCheckpoint {
                key: self.checkpoint_key,
                kind: ContentKind::Cbor,
                revision: syndicated_up_to(self.revision, ancestor, timeline@, failed)->0,
                places: self.places,
            },
            JobPhase::Save => JobRequest::Save,
            JobPhase::Done => JobRequest::Finish,
            JobPhase::Failed { .. } => JobRequest::Finish,
        }
    }

    /// The phase that follows once the pending action has led to `event`; the
    /// same phase where `event` is no answer to that action.
    pub open spec fn phase_after(self, event: JobEvent<R, D, E>) -> JobPhase<R, D, E> {
        match (self.phase, event) {
            (JobPhase::IdentifyNode, JobEvent::NodeIdentified { .. }) => JobPhase::OpenDatabase,
            (JobPhase::IdentifyNode, JobEvent::Failed { error }) => JobPhase::Failed {
                error: JobError::Unidentified { error },
            },
            (JobPhase::OpenDatabase, JobEvent::DatabaseOpened) => JobPhase::ReadCounterpart,
            (JobPhase::ReadCounterpart, JobEvent::CounterpartFound { counterpart }) =>
                JobPhase::LoadContent { counterpart },
            (JobPhase::LoadContent { counterpart }, JobEvent::ContentLoaded) =>
                JobPhase::RequireRevision { counterpart },
            (JobPhase::LoadContent { counterpart }, JobEvent::ContentMissing) =>
                JobPhase::LoadLatestContent { counterpart },
            (JobPhase::RequireRevision { .. }, JobEvent::RevisionFound { revision }) =>
                JobPhase::ReadCheckpoint { sphere: revision },
            (JobPhase::RequireRevision { counterpart }, JobEvent::RevisionMissing { .. }) =>
                JobPhase::LoadLatestContent { counterpart },
            (JobPhase::LoadLatestContent { counterpart }, JobEvent::ContentLoaded) =>
                JobPhase::RequireLatestRevision { counterpart },
            (JobPhase::RequireLatestRevision { .. }, JobEvent::RevisionFound { revision }) =>
                JobPhase::ReadCheckpoint { sphere: revision },
            (JobPhase::RequireLatestRevision { .. }, JobEvent::RevisionMissing { error }) =>
                JobPhase::Failed { error: JobError::Step { error } },
            (JobPhase::ReadCheckpoint { sphere }, JobEvent::CheckpointFound { file }) =>
                if file == Some(Some(ContentKind::Cbor)) {
                    JobPhase::DecodeCheckpoint { sphere }
                } else {
                    JobPhase::Slice { sphere, ancestor: None }
                },
            (JobPhase::DecodeCheckpoint { sphere }, JobEvent::CheckpointDecoded { checkpoint }) =>
                JobPhase::Slice { sphere, ancestor: Some(checkpoint.revision) },
            (JobPhase::Slice { ancestor, .. }, JobEvent::Sliced { timeline }) =>
                Self::uploading(ancestor, timeline, 0, None),
            (JobPhase::Upload { ancestor, timeline, next, failed }, JobEvent::Uploaded { .. }) =>
                Self::uploading(ancestor, timeline, next + 1, failed),
            (JobPhase::Upload { ancestor, timeline, next, failed }, JobEvent::UploadFailed) =>
                Self::uploading(ancestor, timeline, next + 1, first_failed(failed, next)),
            (JobPhase::WriteCheckpoint { .. }, JobEvent::CheckpointWritten) => JobPhase::Save,
            (JobPhase::Save, JobEvent::Saved) => JobPhase::Done,
            (JobPhase::Upload { .. }, JobEvent::Failed { .. }) => self.phase,
            (JobPhase::Done, _) => self.phase,
            (JobPhase::Failed { .. }, _) => self.phase,
            (_, JobEvent::Failed { error }) => JobPhase::Failed { error: JobError::Step { error } },
            _ => self.phase,
        }
    }

    /// The phase after the first `tried` revisions of `timeline` have been
    /// tried. Once all have been tried, a checkpoint is to be written if there
    /// is a revision for it to record.
    pub open spec fn uploading(
        ancestor: Option<R>,
        timeline: Vec<R>,
        tried: int,
        failed: Option<usize>,
    ) -> JobPhase<R, D, E> {
        if tried < timeline@.len() {
            JobPhase::Upload { ancestor, timeline, next: tried as usize, failed }
        } else if failed == Some(0usize) && ancestor is None {
            JobPhase::Done
        } else {
            JobPhase::WriteCheckpoint { ancestor, timeline, failed }
        }
    }

    /// The processing after the pending action has led to `event`.
    pub open spec fn next(self, event: JobEvent<R, D, E>) -> Self {
        JobState {
            revision: self.revision,
            context: self.context,
            checkpoint_key: match (self.phase, event) {
                (JobPhase::IdentifyNode, JobEvent::NodeIdentified { identity }) =>
                    super::checkpoint::checkpoint_slug(identity@),
                _ => self.checkpoint_key,
            },
            places: match (self.phase, event) {
                (JobPhase::DecodeCheckpoint { .. }, JobEvent::CheckpointDecoded { checkpoint }) =>
                    super::filter::filter_places(checkpoint.syndicated_blocks),
                (JobPhase::Upload { .. }, JobEvent::Uploaded { blocks }) => self.places.union(
                    super::filter::places_of(super::filter::contents(blocks@)),
                ),
                _ => self.places,
            },
            phase: self.phase_after(event),
        }
    }
}

/// Starts to process `job`.
pub fn process_job<R, C, D, E>(job: SyndicationJob<R, C>) -> (process: ProcessJob<R, C, D, E>)
    ensures
        process@.wf(),
        process@ == JobState::<R, C, D, E>::start(job.revision, job.context),
{
    ProcessJob {
        job,
        checkpoint_key: String::new(),
        syndicated_blocks: empty_filter(),
        phase: JobPhase::IdentifyNode,
    }
}

impl<R, C, D, E> ProcessJob<R, C, D, E> {
    /// What has to be done next.
    pub open spec fn pending(&self) -> JobAction<'_, R, D> {
        match &self.phase {
            JobPhase::IdentifyNode => JobAction::IdentifyNode,
            JobPhase::OpenDatabase => JobAction::OpenDatabase,
            JobPhase::ReadCounterpart => JobAction::ReadCounterpart,
            JobPhase::LoadContent { .. } => JobAction::LoadContent { revision: &self.job.revision },
            JobPhase::RequireRevision { counterpart } => JobAction::RequireRevision { counterpart },
            JobPhase::LoadLatestContent { .. } => JobAction::LoadLatestContent,
            JobPhase::RequireLatestRevision { counterpart } => JobAction::RequireRevision {
                counterpart,
            },
            JobPhase::ReadCheckpoint { .. } => JobAction::ReadCheckpoint { key: &self.checkpoint_key },
            JobPhase::DecodeCheckpoint { .. } => JobAction::DecodeCheckpoint,
            JobPhase::Slice { sphere, ancestor } => JobAction::Slice { sphere, ancestor },
            JobPhase::Upload { timeline, next, .. } => JobAction::Upload {
                revision: &timeline@[*next as int],
            },
            JobPhase::WriteCheckpoint { ancestor, timeline, failed } => JobAction::WriteCheckpoint {
                key: &self.checkpoint_key,
                kind: ContentKind::Cbor,
                revision: &syndicated_up_to(self.job.revision, *ancestor, timeline@, *failed)->0,
                syndicated_blocks: &self.syndicated_blocks,
            },
            JobPhase::Save => JobAction::Save,
            JobPhase::Done => JobAction::Finish,
            JobPhase::Failed { .. } => JobAction::Finish,
        }
    }

    /// What has to be done next.
    pub fn action(&self) -> (action: JobAction<'_, R, D>)
        requires
            self@.wf(),
        ensures
            action == self.pending(),
            action@ == self@.request(),
            self.phase matches JobPhase::Upload { timeline, next, .. } ==> (
            action matches JobAction::Upload { revision } && *revision == timeline@[next as int]),
    {
        match &self.phase {
            JobPhase::IdentifyNode => JobAction::IdentifyNode,
            JobPhase::OpenDatabase => JobAction::OpenDatabase,
            JobPhase::ReadCounterpart => JobAction::ReadCounterpart,
            JobPhase::LoadContent { .. } => JobAction::LoadContent { revision: &self.job.revision },
            JobPhase::RequireRevision { counterpart } => JobAction::RequireRevision { counterpart },
            JobPhase::LoadLatestContent { .. } => JobAction::LoadLatestContent,
            JobPhase::RequireLatestRevision { counterpart } => JobAction::RequireRevision {
                counterpart,
            },
            JobPhase::ReadCheckpoint { .. } => JobAction::ReadCheckpoint { key: &self.checkpoint_key },
            JobPhase::DecodeCheckpoint { .. } => JobAction::DecodeCheckpoint,
            JobPhase::Slice { sphere, ancestor } => JobAction::Slice { sphere, ancestor },
            JobPhase::Upload { timeline, next, .. } => JobAction::Upload { revision: &timeline[*next] },
            JobPhase::WriteCheckpoint { ancestor, timeline, failed } => JobAction::WriteCheckpoint {
                key: &self.checkpoint_key,
                kind: ContentKind::Cbor,
                revision: Self::recorded(&self.job.revision, ancestor, timeline, failed),
                syndicated_blocks: &self.syndicated_blocks,
            },
            JobPhase::Save => JobAction::Save,
            JobPhase::Done => JobAction::Finish,
            JobPhase::Failed { .. } => JobAction::Finish,
        }
    }

    /// The revision that a checkpoint records.
    fn recorded<'a>(
        revision: &'a R,
        ancestor: &'a Option<R>,
        timeline: &'a Vec<R>,
        failed: &Option<usize>,
    ) -> (recorded: &'a R)
        requires
            failed matches Some(place) ==> place < timeline@.len(),
            syndicated_up_to(*revision, *ancestor, timeline@, *failed) is Some,
        ensures
            syndicated_up_to(*revision, *ancestor, timeline@, *failed) == Some(*recorded),
    {
        match (failed, ancestor) {
            (None, _) => revision,
            (Some(0), Some(ancestor)) => ancestor,
            (Some(place), _) => &timeline[*place - 1],
        }
    }

    fn upload_next(
        ancestor: Option<R>,
        timeline: Vec<R>,
        tried: usize,
        failed: Option<usize>,
    ) -> (phase: JobPhase<R, D, E>)
        ensures
            phase == JobState::<R, C, D, E>::uploading(ancestor, timeline, tried as int, failed),
    {
        let count: usize = timeline.len();
        if tried < count {
            JobPhase::Upload { ancestor, timeline, next: tried, failed }
        } else {
            match (failed, &ancestor) {
                (Some(0), None) => JobPhase::Done,
                _ => JobPhase::WriteCheckpoint { ancestor, timeline, failed },
            }
        }
    }

    /// Takes in what came of the pending action. An event that is no answer
    /// to that action changes nothing.
    pub fn step(self, event: JobEvent<R, D, E>) -> (process: Self)
        requires
            self@.wf(),
        ensures
            process@.wf(),
            process@ == self@.next(event),
    {
        let ProcessJob { job, checkpoint_key: mut key, mut syndicated_blocks, phase } = self;
        let phase = match (phase, event) {
            (JobPhase::IdentifyNode, JobEvent::NodeIdentified { identity }) => {
                key = checkpoint_key(identity.as_str());
                JobPhase::OpenDatabase
            },
            (JobPhase::IdentifyNode, JobEvent::Failed { error }) => JobPhase::Failed {
                error: JobError::Unidentified { error },
            },
            (JobPhase::OpenDatabase, JobEvent::DatabaseOpened) => JobPhase::ReadCounterpart,
            (JobPhase::ReadCounterpart, JobEvent::CounterpartFound { counterpart }) =>
                JobPhase::LoadContent { counterpart },
            (JobPhase::LoadContent { counterpart }, JobEvent::ContentLoaded) =>
                JobPhase::RequireRevision { counterpart },
            (JobPhase::LoadContent { counterpart }, JobEvent::ContentMissing) =>
                JobPhase::LoadLatestContent { counterpart },
            (JobPhase::RequireRevision { .. }, JobEvent::RevisionFound { revision }) =>
                JobPhase::ReadCheckpoint { sphere: revision },
            (JobPhase::RequireRevision { counterpart }, JobEvent::RevisionMissing { .. }) =>
                JobPhase::LoadLatestContent { counterpart },
            (JobPhase::LoadLatestContent { counterpart }, JobEvent::ContentLoaded) =>
                JobPhase::RequireLatestRevision { counterpart },
            (JobPhase::RequireLatestRevision { .. }, JobEvent::RevisionFound { revision }) =>
                JobPhase::ReadCheckpoint { sphere: revision },
            (JobPhase::RequireLatestRevision { .. }, JobEvent::RevisionMissing { error }) =>
                JobPhase::Failed { error: JobError::Step { error } },
            (JobPhase::ReadCheckpoint { sphere }, JobEvent::CheckpointFound { file }) => match file {
                Some(Some(ContentKind::Cbor)) => JobPhase::DecodeCheckpoint { sphere },
                _ => JobPhase::Slice { sphere, ancestor: None },
            },
            (JobPhase::DecodeCheckpoint { sphere }, JobEvent::CheckpointDecoded { checkpoint }) => {
                syndicated_blocks = checkpoint.syndicated_blocks;
                JobPhase::Slice { sphere, ancestor: Some(checkpoint.revision) }
            },
            (JobPhase::Slice { ancestor, .. }, JobEvent::Sliced { timeline }) =>
                Self::upload_next(ancestor, timeline, 0, None),
            (JobPhase::Upload { ancestor, timeline, next, failed }, JobEvent::Uploaded { blocks }) => {
                insert_all(&mut syndicated_blocks, &blocks);
                let count: usize = timeline.len();
                assert(next < count);
                Self::upload_next(ancestor, timeline, next + 1, failed)
            },
            (JobPhase::Upload { ancestor, timeline, next, failed }, JobEvent::UploadFailed) => {
                let failed = match failed {
                    Some(place) => Some(place),
                    None => Some(next),
                };
                let count: usize = timeline.len();
                assert(next < count);
                Self::upload_next(ancestor, timeline, next + 1, failed)
            },
            (JobPhase::WriteCheckpoint { .. }, JobEvent::CheckpointWritten) => JobPhase::Save,
            (JobPhase::Save, JobEvent::Saved) => JobPhase::Done,
            (JobPhase::Upload { ancestor, timeline, next, failed }, JobEvent::Failed { .. }) =>
                JobPhase::Upload { ancestor, timeline, next, failed },
            (JobPhase::Done, _) => JobPhase::Done,
            (JobPhase::Failed { error }, _) => JobPhase::Failed { error },
            (_, JobEvent::Failed { error }) => JobPhase::Failed { error: JobError::Step { error } },
            (phase, _) => phase,
        };
        ProcessJob { job, checkpoint_key: key, syndicated_blocks, phase }
    }

    /// Whether the job is done, and the error that ended it if one did;
    /// `None` while it is under way.
    pub fn outcome(self) -> (outcome: Option<Result<(), JobError<E>>>)
        ensures
            match self.phase {
                JobPhase::Done => outcome == Some(Ok::<(), JobError<E>>(())),
                JobPhase::Failed { error } => outcome == Some(Err::<(), JobError<E>>(error)),
                _ => outcome is None,
            },
    {
        match self.phase {
            JobPhase::Done => Some(Ok(())),
            JobPhase::Failed { error } => Some(Err(error)),
            _ => None,
        }
    }
}

} // verus!
