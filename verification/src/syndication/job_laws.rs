//! What the processing of a syndication job leads to.

use vstd::prelude::*;

use super::checkpoint::SyndicationCheckpoint;
use super::job::{JobError, JobEvent, JobPhase, JobRequest, JobState};
use crate::content::ContentKind;

verus! {

/// A checkpoint, seen as a mathematical value.
#[verifier::ext_equal]
pub struct CheckpointState<R> {
    /// The slug that the checkpoint is stored under.
    pub key: Seq<char>,
    pub kind: ContentKind,
    pub revision: R,
    /// The places that are marked in the filter of syndicated blocks.
    pub places: Set<int>,
}

/// What the processing of a job has come across and brought about.
#[verifier::ext_equal]
pub struct JobLog<R> {
    /// The name of the IPFS node.
    pub node: Seq<char>,
    /// The content of the local sphere that was loaded last: at a revision, or
    /// of the latest version for `Some(None)`.
    pub content: Option<Option<R>>,
    /// The revision at which the counterpart sphere was found.
    pub sphere: Option<R>,
    /// The earlier checkpoint, if there was one.
    pub earlier: Option<SyndicationCheckpoint<R>>,
    /// The revisions since the earlier checkpoint.
    pub timeline: Seq<R>,
    /// The revisions whose upload was tried, in order.
    pub tried: Seq<R>,
    /// The places in the timeline of the revisions whose upload failed, in
    /// order.
    pub failed: Seq<int>,
    /// The addresses of the blocks that were uploaded.
    pub uploaded: Seq<Seq<u8>>,
    /// The checkpoints that were written.
    pub written: Seq<CheckpointState<R>>,
}

impl<R> JobLog<R> {
    pub open spec fn empty() -> Self {
        JobLog {
            node: Seq::empty(),
            content: None,
            sphere: None,
            earlier: None,
            timeline: Seq::empty(),
            tried: Seq::empty(),
            failed: Seq::empty(),
            uploaded: Seq::empty(),
            written: Seq::empty(),
        }
    }

    /// The places marked by the earlier checkpoint.
    pub open spec fn earlier_places(self) -> Set<int> {
        match self.earlier {
            Some(checkpoint) => super::filter::filter_places(checkpoint.syndicated_blocks),
            None => Set::empty(),
        }
    }

    /// The revision that the earlier checkpoint records.
    pub open spec fn earlier_revision(self) -> Option<R> {
        match self.earlier {
            Some(checkpoint) => Some(checkpoint.revision),
            None => None,
        }
    }

    /// The place of the first upload to fail.
    pub open spec fn first_failed(self) -> Option<usize> {
        if self.failed.len() == 0 {
            None
        } else {
            Some(self.failed[0] as usize)
        }
    }

    /// The last spot that was successfully syndicated, once a job about
    /// `revision` has tried everything.
    pub open spec fn syndicated(self, revision: R) -> Option<R> {
        if self.failed.len() == 0 {
            Some(revision)
        } else if self.failed[0] > 0 {
            Some(self.timeline[self.failed[0] - 1])
        } else {
            self.earlier_revision()
        }
    }

    /// The log once the pending action of `state` has led to `event`.
    pub open spec fn next<C, D, E>(self, state: JobState<R, C, D, E>, event: JobEvent<R, D, E>) -> Self {
        match (state.request(), event) {
            (JobRequest::IdentifyNode, JobEvent::NodeIdentified { identity }) => JobLog {
                node: identity@,
                ..self
            },
            (JobRequest::LoadContent { revision }, JobEvent::ContentLoaded) => JobLog {
                content: Some(Some(revision)),
                ..self
            },
            (JobRequest::LoadLatestContent, JobEvent::ContentLoaded) => JobLog {
                content: Some(None),
                ..self
            },
            (JobRequest::RequireRevision { .. }, JobEvent::RevisionFound { revision }) => JobLog {
                sphere: Some(revision),
                ..self
            },
            (JobRequest::DecodeCheckpoint, JobEvent::CheckpointDecoded { checkpoint }) => JobLog {
                earlier: Some(checkpoint),
                ..self
            },
            (JobRequest::Slice { .. }, JobEvent::Sliced { timeline }) => JobLog {
                timeline: timeline@,
                ..self
            },
            (JobRequest::Upload { revision }, JobEvent::Uploaded { blocks }) => JobLog {
                tried: self.tried.push(revision),
                uploaded: self.uploaded + super::filter::contents(blocks@),
                ..self
            },
            (JobRequest::Upload { revision }, JobEvent::UploadFailed) => JobLog {
                tried: self.tried.push(revision),
                failed: self.failed.push(self.tried.len() as int),
                ..self
            },
            (
                JobRequest::WriteCheckpoint { key, kind, revision, places },
                JobEvent::CheckpointWritten,
            ) => JobLog {
                written: self.written.push(CheckpointState { key, kind, revision, places }),
                ..self
            },
            _ => self,
        }
    }
}

/// The processing of a job from its start through `events`: where it stands,
/// and what it has come across and brought about.
pub open spec fn process_through<R, C, D, E>(
    revision: R,
    context: C,
    events: Seq<JobEvent<R, D, E>>,
) -> (JobState<R, C, D, E>, JobLog<R>)
    decreases events.len(),
{
    if events.len() == 0 {
        (JobState::start(revision, context), JobLog::empty())
    } else {
        let (state, log) = process_through::<R, C, D, E>(revision, context, events.drop_last());
        (state.next(events.last()), log.next(state, events.last()))
    }
}

/// The node has been identified in this phase.
spec fn node_known<R, D, E>(phase: JobPhase<R, D, E>) -> bool {
    !(phase is IdentifyNode || phase is Failed)
}

/// The history has been listed in this phase.
spec fn history_known<R, D, E>(phase: JobPhase<R, D, E>) -> bool {
    phase is Upload || uploads_over(phase)
}

/// Nothing is left to upload in this phase.
spec fn uploads_over<R, D, E>(phase: JobPhase<R, D, E>) -> bool {
    phase is WriteCheckpoint || phase is Save || phase is Done
}

/// The checkpoint that a job about `revision` owes.
spec fn checkpoint_owed<R>(revision: R, log: JobLog<R>) -> CheckpointState<R> {
    CheckpointState {
        key: super::checkpoint::checkpoint_slug(log.node),
        kind: ContentKind::Cbor,
        revision: log.syndicated(revision)->0,
        places: log.earlier_places().union(super::filter::places_of(log.uploaded)),
    }
}

/// How state and log of a processing fit together.
spec fn fits<R, C, D, E>(revision: R, state: JobState<R, C, D, E>, log: JobLog<R>) -> bool {
    &&& state.wf()
    &&& state.revision == revision
    &&& node_known(state.phase) ==> state.checkpoint_key == super::checkpoint::checkpoint_slug(log.node)
    &&& state.phase !is Failed ==> {
        &&& state.places == log.earlier_places().union(super::filter::places_of(log.uploaded))
        &&& !history_known(state.phase) ==> {
            &&& log.timeline == Seq::<R>::empty()
            &&& log.tried == Seq::<R>::empty()
            &&& log.failed == Seq::<int>::empty()
            &&& log.uploaded == Seq::<Seq<u8>>::empty()
        }
        &&& !(state.phase is Slice || history_known(state.phase)) ==> log.earlier is None
        &&& !(state.phase is Save || state.phase is Done) ==> log.written == Seq::<
            CheckpointState<R>,
        >::empty()
    }
    &&& match state.phase {
        JobPhase::RequireRevision { .. } => log.content == Some(Some(revision)),
        JobPhase::RequireLatestRevision { .. } => log.content == Some(None::<R>),
        JobPhase::ReadCheckpoint { sphere } => log.sphere == Some(sphere),
        JobPhase::DecodeCheckpoint { sphere } => log.sphere == Some(sphere),
        JobPhase::Slice { sphere, ancestor } => {
            &&& log.sphere == Some(sphere)
            &&& ancestor == log.earlier_revision()
        },
        JobPhase::Upload { ancestor, timeline, next, failed } => {
            &&& ancestor == log.earlier_revision()
            &&& log.timeline == timeline@
            &&& log.tried == timeline@.take(next as int)
            &&& failed == log.first_failed()
        },
        JobPhase::WriteCheckpoint { ancestor, timeline, failed } => {
            &&& ancestor == log.earlier_revision()
            &&& log.timeline == timeline@
            &&& failed == log.first_failed()
        },
        JobPhase::Save => log.written.len() == 1,
        JobPhase::Done => log.written.len() == 1 <==> log.syndicated(revision) is Some,
        _ => true,
    }
    &&& uploads_over(state.phase) ==> log.tried == log.timeline
    &&& log.tried == log.timeline.take(log.tried.len() as int)
    &&& log.tried.len() <= log.timeline.len()
    &&& log.tried.len() <= usize::MAX
    &&& forall|k: int| 0 <= k < log.failed.len() ==> 0 <= #[trigger] log.failed[k] < log.tried.len()
    &&& forall|k: int| 0 <= k < log.failed.len() ==> log.failed[0] <= #[trigger] log.failed[k]
    &&& log.written.len() <= 1
    &&& log.written.len() == 1 ==> {
        &&& log.tried == log.timeline
        &&& log.syndicated(revision) is Some
        &&& log.written[0] == checkpoint_owed(revision, log)
    }
}

proof fn lemma_fits<R, C, D, E>(revision: R, context: C, events: Seq<JobEvent<R, D, E>>)
    ensures
        ({
            let (state, log) = process_through::<R, C, D, E>(revision, context, events);
            fits(revision, state, log)
        }),
    decreases events.len(),
{
    let (state, log) = process_through::<R, C, D, E>(revision, context, events);
    if events.len() == 0 {
        assert(log.tried =~= log.timeline.take(0));
        assert(state.places =~= log.earlier_places().union(super::filter::places_of(log.uploaded)));
    } else {
        lemma_fits::<R, C, D, E>(revision, context, events.drop_last());
        let event = events.last();
        let (before, earlier) = process_through::<R, C, D, E>(revision, context, events.drop_last());
        match (before.phase, event) {
            (JobPhase::DecodeCheckpoint { .. }, JobEvent::CheckpointDecoded { .. }) => {
                assert(state.places =~= log.earlier_places().union(
                    super::filter::places_of(log.uploaded),
                ));
            },
            (JobPhase::Slice { .. }, JobEvent::Sliced { timeline }) => {
                assert(timeline@.take(0) =~= Seq::empty());
                assert(log.tried =~= log.timeline.take(0));
                if timeline@.len() == 0 {
                    assert(log.tried =~= log.timeline);
                }
            },
            (JobPhase::Upload { timeline, next, .. }, JobEvent::Uploaded { blocks }) => {
                super::filter::lemma_places_of_append(
                    earlier.uploaded,
                    super::filter::contents(blocks@),
                );
                assert(state.places =~= log.earlier_places().union(
                    super::filter::places_of(log.uploaded),
                ));
                assert(timeline.len() == timeline@.len());
                assert(log.tried =~= timeline@.take(next + 1));
                if next + 1 == timeline@.len() {
                    assert(timeline@.take(next + 1) =~= timeline@);
                }
            },
            (JobPhase::Upload { timeline, next, .. }, JobEvent::UploadFailed) => {
                assert(timeline.len() == timeline@.len());
                assert(log.tried =~= timeline@.take(next + 1));
                if next + 1 == timeline@.len() {
                    assert(timeline@.take(next + 1) =~= timeline@);
                }
            },
            _ => {},
        }
    }
}

/// The history that is listed reaches from the revision that the earlier
/// checkpoint records, or from the beginning if there is none, up to the
/// revision at which the counterpart sphere was found.
pub proof fn law_history_starts_at_the_checkpoint<R, C, D, E>(
    revision: R,
    context: C,
    events: Seq<JobEvent<R, D, E>>,
)
    ensures
        ({
            let (state, log) = process_through::<R, C, D, E>(revision, context, events);
            state.request() matches JobRequest::Slice { sphere, ancestor } ==> {
                &&& log.sphere == Some(sphere)
                &&& ancestor == (match log.earlier {
                    Some(checkpoint) => Some(checkpoint.revision),
                    None => None,
                })
            }
        }),
{
    lemma_fits::<R, C, D, E>(revision, context, events);
}

/// Whether `event` tells the truth about the counterpart sphere, where `linked`
/// tells the revision of it that the local sphere holds: at a revision of the
/// local sphere, or at the latest version for `None`.
pub open spec fn look_up_is_true<R, C, D, E>(
    state: JobState<R, C, D, E>,
    log: JobLog<R>,
    event: JobEvent<R, D, E>,
    linked: spec_fn(Option<R>) -> Option<R>,
) -> bool {
    match (state.request(), event) {
        (JobRequest::LoadContent { revision }, JobEvent::ContentMissing) =>
            linked(Some(revision)) is None,
        (JobRequest::RequireRevision { .. }, JobEvent::RevisionFound { revision }) =>
            log.content matches Some(at) ==> linked(at) == Some(revision),
        (JobRequest::RequireRevision { .. }, JobEvent::RevisionMissing { .. }) =>
            log.content matches Some(at) ==> linked(at) is None,
        _ => true,
    }
}

/// Whether all `events` tell the truth about the counterpart sphere.
pub open spec fn look_ups_are_true<R, C, D, E>(
    revision: R,
    context: C,
    events: Seq<JobEvent<R, D, E>>,
    linked: spec_fn(Option<R>) -> Option<R>,
) -> bool
    decreases events.len(),
{
    events.len() == 0 || {
        let (before, log) = process_through::<R, C, D, E>(revision, context, events.drop_last());
        &&& look_ups_are_true::<R, C, D, E>(revision, context, events.drop_last(), linked)
        &&& look_up_is_true(before, log, events.last(), linked)
    }
}

/// The revision of the counterpart sphere that a job about `revision` is to
/// syndicate: the one that the local sphere holds at that revision, or else at
/// its latest version.
pub open spec fn counterpart_revision<R>(
    revision: R,
    linked: spec_fn(Option<R>) -> Option<R>,
) -> Option<R> {
    if linked(Some(revision)) is Some {
        linked(Some(revision))
    } else {
        linked(None)
    }
}

/// The counterpart sphere is discovered from the revision of the job, and only
/// if that does not tell of it from the latest version of the local sphere.
pub proof fn law_counterpart_is_discovered_from_the_revision_of_the_job<R, C, D, E>(
    revision: R,
    context: C,
    events: Seq<JobEvent<R, D, E>>,
    linked: spec_fn(Option<R>) -> Option<R>,
)
    requires
        look_ups_are_true::<R, C, D, E>(revision, context, events, linked),
    ensures
        ({
            let (state, log) = process_through::<R, C, D, E>(revision, context, events);
            &&& log.sphere is Some ==> log.sphere == counterpart_revision(revision, linked)
            &&& state.phase is LoadLatestContent || state.phase is RequireLatestRevision
                ==> linked(Some(revision)) is None
            &&& state.request() matches JobRequest::Slice { sphere, .. } ==> counterpart_revision(
                revision,
                linked,
            ) == Some(sphere)
        }),
    decreases events.len(),
{
    lemma_fits::<R, C, D, E>(revision, context, events);
    if events.len() > 0 {
        lemma_fits::<R, C, D, E>(revision, context, events.drop_last());
        law_counterpart_is_discovered_from_the_revision_of_the_job::<R, C, D, E>(
            revision,
            context,
            events.drop_last(),
            linked,
        );
    }
}

/// The newest revision that a job syndicates is the one that the local sphere
/// holds at the revision of the job, or else at its latest version, where
/// `timeline` spans `history` up to the revision that was asked for.
pub proof fn law_newest_revision_is_the_one_discovered<R, C, D, E>(
    revision: R,
    context: C,
    events: Seq<JobEvent<R, D, E>>,
    linked: spec_fn(Option<R>) -> Option<R>,
    history: Seq<R>,
    from: int,
    to: int,
)
    requires
        look_ups_are_true::<R, C, D, E>(revision, context, events, linked),
        ({
            let (state, log) = process_through::<R, C, D, E>(revision, context, events);
            &&& log.timeline.len() > 0
            &&& spans(history, log.earlier_revision(), log.sphere, log.timeline, from, to)
        }),
    ensures
        counterpart_revision(revision, linked) == Some(
            process_through::<R, C, D, E>(revision, context, events).1.timeline.last(),
        ),
{
    law_counterpart_is_discovered_from_the_revision_of_the_job::<R, C, D, E>(
        revision,
        context,
        events,
        linked,
    );
}

/// The revisions that uploads are asked for are those that were listed, each
/// place of the list once and in order, whether or not the uploads succeed. A
/// checkpoint is written at most once, and only after all of them were tried.
pub proof fn law_every_revision_is_tried_first<R, C, D, E>(
    revision: R,
    context: C,
    events: Seq<JobEvent<R, D, E>>,
)
    ensures
        ({
            let (state, log) = process_through::<R, C, D, E>(revision, context, events);
            &&& log.written.len() <= 1
            &&& log.written.len() == 1 ==> log.tried == log.timeline
            &&& state.phase is Done ==> log.tried == log.timeline
            &&& state.request() is WriteCheckpoint || state.request() is Save ==> log.tried
                == log.timeline
            &&& log.tried.len() <= log.timeline.len()
            &&& log.tried == log.timeline.take(log.tried.len() as int)
            &&& state.request() matches JobRequest::Upload { revision: next } ==> log.tried.len()
                < log.timeline.len() && next == log.timeline[log.tried.len() as int]
        }),
{
    lemma_fits::<R, C, D, E>(revision, context, events);
}

/// A job that is done has written one checkpoint, unless the very first upload
/// failed and there was no earlier checkpoint: then it has written none. The
/// checkpoint is the one of the IPFS node, it records the last spot that was
/// successfully syndicated, and its filter marks what the earlier checkpoint
/// marked and the blocks that were uploaded, nothing else.
pub proof fn law_done_job_leaves_a_checkpoint<R, C, D, E>(
    revision: R,
    context: C,
    events: Seq<JobEvent<R, D, E>>,
)
    ensures
        ({
            let (state, log) = process_through::<R, C, D, E>(revision, context, events);
            state.phase is Done ==> log.written == (match log.syndicated(revision) {
                Some(syndicated) => seq![
                    CheckpointState {
                        key: "syndication/kubo/"@ + log.node,
                        kind: ContentKind::Cbor,
                        revision: syndicated,
                        places: log.earlier_places().union(super::filter::places_of(log.uploaded)),
                    },
                ],
                None => Seq::<CheckpointState<R>>::empty(),
            })
        }),
{
    lemma_fits::<R, C, D, E>(revision, context, events);
}

/// Whether `recorded` is a spot before every upload that failed: the revision
/// of the job if none failed, or a listed revision before the first that
/// failed, or the revision that the earlier checkpoint records.
pub open spec fn passes_no_failure<R>(revision: R, log: JobLog<R>, recorded: R) -> bool {
    ||| log.failed.len() == 0 && recorded == revision
    ||| log.earlier_revision() == Some(recorded)
    ||| exists|place: int|
        0 <= place < log.timeline.len() && recorded == #[trigger] log.timeline[place] && forall|
            k: int,
        |
            0 <= k < log.failed.len() ==> place < #[trigger] log.failed[k]
}

/// A checkpoint never passes a revision whose upload failed, at any moment of
/// the job: what is recorded is the revision of the job if no upload failed, or
/// else a listed revision before the first failed one, or the revision of the
/// earlier checkpoint. It is recorded under the key of the IPFS node.
pub proof fn law_checkpoint_never_passes_a_failed_revision<R, C, D, E>(
    revision: R,
    context: C,
    events: Seq<JobEvent<R, D, E>>,
)
    ensures
        ({
            let (state, log) = process_through::<R, C, D, E>(revision, context, events);
            forall|i: int|
                0 <= i < log.written.len() ==> {
                    &&& log.written[i].key == "syndication/kubo/"@ + log.node
                    &&& log.written[i].kind == ContentKind::Cbor
                    &&& log.syndicated(revision) == Some((#[trigger] log.written[i]).revision)
                    &&& passes_no_failure(revision, log, log.written[i].revision)
                }
        }),
{
    lemma_fits::<R, C, D, E>(revision, context, events);
    let (state, log) = process_through::<R, C, D, E>(revision, context, events);
    if log.written.len() == 1 && log.failed.len() > 0 && log.failed[0] > 0 {
        let place = log.failed[0] - 1;
        assert(log.written[0].revision == log.timeline[place]);
        assert(forall|k: int| 0 <= k < log.failed.len() ==> place < #[trigger] log.failed[k]);
    }
}

/// The checkpoint of a job finds every block that the job uploaded, and every
/// block that the earlier checkpoint found.
pub proof fn law_syndicated_blocks_are_found<R, C, D, E>(
    revision: R,
    context: C,
    events: Seq<JobEvent<R, D, E>>,
    block: Seq<u8>,
)
    requires
        process_through::<R, C, D, E>(revision, context, events).1.written.len() > 0,
    ensures
        ({
            let (state, log) = process_through::<R, C, D, E>(revision, context, events);
            log.uploaded.contains(block) || super::filter::found_in(log.earlier_places(), block)
                ==> super::filter::found_in(log.written[0].places, block)
        }),
{
    lemma_fits::<R, C, D, E>(revision, context, events);
    let (state, log) = process_through::<R, C, D, E>(revision, context, events);
    if log.uploaded.contains(block) {
        let i = log.uploaded.index_of(block);
        super::filter::law_inserted_is_found(log.earlier_places(), log.uploaded, i);
    }
    if super::filter::found_in(log.earlier_places(), block) {
        super::filter::law_insertion_loses_nothing(log.earlier_places(), log.uploaded, block);
    }
}

/// A job that finds what an earlier job left goes on where that job ended: it
/// lists the history since the last spot that was successfully syndicated.
pub proof fn law_next_job_continues_where_the_last_one_ended<R, C, D, E>(
    first: R,
    first_context: C,
    first_events: Seq<JobEvent<R, D, E>>,
    second: R,
    second_context: C,
    second_events: Seq<JobEvent<R, D, E>>,
)
    requires
        ({
            let (state, log) = process_through::<R, C, D, E>(first, first_context, first_events);
            let (next, next_log) = process_through::<R, C, D, E>(
                second,
                second_context,
                second_events,
            );
            &&& state.phase is Done
            &&& next.request() is Slice
            &&& next_log.earlier_revision() == left_revision(log)
        }),
    ensures
        ({
            let (state, log) = process_through::<R, C, D, E>(first, first_context, first_events);
            let (next, next_log) = process_through::<R, C, D, E>(
                second,
                second_context,
                second_events,
            );
            next.request() matches JobRequest::Slice { ancestor, .. } && ancestor == log.syndicated(
                first,
            )
        }),
{
    law_done_job_leaves_a_checkpoint::<R, C, D, E>(first, first_context, first_events);
    law_history_starts_at_the_checkpoint::<R, C, D, E>(second, second_context, second_events);
}

/// The revision in the checkpoint that a job has written, if it has written one.
pub open spec fn left_revision<R>(log: JobLog<R>) -> Option<R> {
    if log.written.len() == 0 {
        None
    } else {
        Some(log.written[0].revision)
    }
}

/// Whether `timeline` is what follows `ancestor` in `history`, or all of it if
/// there is no ancestor, up to `sphere`.
pub open spec fn spans<R>(
    history: Seq<R>,
    ancestor: Option<R>,
    sphere: Option<R>,
    timeline: Seq<R>,
    from: int,
    to: int,
) -> bool {
    &&& 0 <= from <= to <= history.len()
    &&& to > 0
    &&& sphere == Some(history[to - 1])
    &&& timeline == history.subrange(from, to)
    &&& match ancestor {
        Some(ancestor) => from > 0 && history[from - 1] == ancestor,
        None => from == 0,
    }
}

/// A revision whose upload failed is listed again by the next job, however
/// much the history of the counterpart sphere has grown: `history` is what it
/// was for the first job, and `later` what it is for the second, each job lists
/// its part of it, and the second job finds what the first one left.
pub proof fn law_failed_revision_is_listed_again<R, C, D, E>(
    first: R,
    first_context: C,
    first_events: Seq<JobEvent<R, D, E>>,
    history: Seq<R>,
    from: int,
    to: int,
    second: R,
    second_context: C,
    second_events: Seq<JobEvent<R, D, E>>,
    later: Seq<R>,
    later_from: int,
    later_to: int,
    k: int,
)
    requires
        later.no_duplicates(),
        history.is_prefix_of(later),
        to <= later_to,
        ({
            let (state, log) = process_through::<R, C, D, E>(first, first_context, first_events);
            let (next, next_log) = process_through::<R, C, D, E>(
                second,
                second_context,
                second_events,
            );
            &&& state.phase is Done
            &&& spans(history, log.earlier_revision(), log.sphere, log.timeline, from, to)
            &&& next_log.earlier_revision() == left_revision(log)
            &&& spans(
                later,
                next_log.earlier_revision(),
                next_log.sphere,
                next_log.timeline,
                later_from,
                later_to,
            )
            &&& 0 <= k < log.failed.len()
        }),
    ensures
        ({
            let (state, log) = process_through::<R, C, D, E>(first, first_context, first_events);
            let (next, next_log) = process_through::<R, C, D, E>(
                second,
                second_context,
                second_events,
            );
            &&& 0 <= log.failed[k] < log.timeline.len()
            &&& next_log.timeline.contains(log.timeline[log.failed[k]])
        }),
{
    lemma_fits::<R, C, D, E>(first, first_context, first_events);
    law_done_job_leaves_a_checkpoint::<R, C, D, E>(first, first_context, first_events);
    let (state, log) = process_through::<R, C, D, E>(first, first_context, first_events);
    let (next, next_log) = process_through::<R, C, D, E>(second, second_context, second_events);
    let place = log.failed[k];
    let start = log.failed[0];
    assert(log.timeline[place] == history[from + place]);
    assert(history[from + place] == later[from + place]);
    if start > 0 {
        assert(log.timeline[start - 1] == history[from + start - 1]);
        assert(later[later_from - 1] == later[from + start - 1]);
    } else if log.earlier_revision() is Some {
        assert(later[later_from - 1] == later[from - 1]);
    }
    assert(later_from == from + start);
    assert(next_log.timeline[from + place - later_from] == log.timeline[place]);
}

/// Whether `event` is an answer to `request`.
pub open spec fn answers<R, D, E>(request: JobRequest<R, D>, event: JobEvent<R, D, E>) -> bool {
    match (request, event) {
        (JobRequest::Finish, _) => false,
        (JobRequest::Upload { .. }, JobEvent::Uploaded { .. }) => true,
        (JobRequest::Upload { .. }, JobEvent::UploadFailed) => true,
        (JobRequest::Upload { .. }, _) => false,
        (_, JobEvent::Failed { .. }) => true,
        (JobRequest::IdentifyNode, JobEvent::NodeIdentified { .. }) => true,
        (JobRequest::OpenDatabase, JobEvent::DatabaseOpened) => true,
        (JobRequest::ReadCounterpart, JobEvent::CounterpartFound { .. }) => true,
        (JobRequest::LoadContent { .. }, JobEvent::ContentLoaded) => true,
        (JobRequest::LoadContent { .. }, JobEvent::ContentMissing) => true,
        (JobRequest::LoadLatestContent, JobEvent::ContentLoaded) => true,
        (JobRequest::RequireRevision { .. }, JobEvent::RevisionFound { .. }) => true,
        (JobRequest::RequireRevision { .. }, JobEvent::RevisionMissing { .. }) => true,
        (JobRequest::ReadCheckpoint { .. }, JobEvent::CheckpointFound { .. }) => true,
        (JobRequest::DecodeCheckpoint, JobEvent::CheckpointDecoded { .. }) => true,
        (JobRequest::Slice { .. }, JobEvent::Sliced { .. }) => true,
        (JobRequest::WriteCheckpoint { .. }, JobEvent::CheckpointWritten) => true,
        (JobRequest::Save, JobEvent::Saved) => true,
        _ => false,
    }
}

/// There is nothing left to do exactly at the end.
/// An event has an effect exactly if it answers the action that was asked for.
/// An answer that the action failed ends the job with that error, which tells
/// whether the IPFS node could not be identified. Of the other answers only a
/// counterpart sphere that is nowhere to be found ends it with an error.
pub proof fn law_job_goes_by_answers<R, C, D, E>(
    state: JobState<R, C, D, E>,
    event: JobEvent<R, D, E>,
)
    requires
        state.wf(),
    ensures
        state.request() is Finish <==> state.phase is Done || state.phase is Failed,
        state.next(event).revision == state.revision,
        state.next(event).context == state.context,
        state.next(event).phase == state.phase <==> !answers(state.request(), event),
        !answers(state.request(), event) ==> state.next(event) == state,
        answers(state.request(), event) ==> match event {
            JobEvent::Failed { error } => state.next(event).phase == (JobPhase::Failed::<R, D, E> {
                error: if state.request() is IdentifyNode {
                    JobError::Unidentified { error }
                } else {
                    JobError::Step { error }
                },
            }),
            JobEvent::RevisionMissing { error } => {
                ||| state.next(event).request() is LoadLatestContent
                ||| state.next(event).phase == (JobPhase::Failed::<R, D, E> {
                    error: JobError::Step { error },
                })
            },
            _ => state.next(event).phase !is Failed,
        },
{
    if let JobPhase::Upload { timeline, next, .. } = state.phase {
        assert(timeline.len() == timeline@.len());
    }
}

/// What is asked for before anything is uploaded, where nothing fails. The
/// counterpart sphere is looked up at the revision of the job, and at the latest
/// version if it is not found there. The checkpoint of the IPFS node is looked
/// up under its key, and read exactly if it is one. Then the history up to the
/// revision that was found is listed, since the checkpoint if there is one.
pub proof fn law_job_takes_these_steps<R, C, D, E>(
    revision: R,
    context: C,
    identity: String,
    counterpart: D,
    found: R,
    error: E,
    file: Option<Option<ContentKind>>,
    checkpoint: SyndicationCheckpoint<R>,
)
    ensures
        ({
            let start = JobState::<R, C, D, E>::start(revision, context);
            let identified = start.next(JobEvent::NodeIdentified { identity });
            let open = identified.next(JobEvent::DatabaseOpened);
            let known = open.next(JobEvent::CounterpartFound { counterpart });
            let loaded = known.next(JobEvent::ContentLoaded);
            let nowhere = known.next(JobEvent::ContentMissing);
            let latest = nowhere.next(JobEvent::ContentLoaded);
            let located = loaded.next(JobEvent::RevisionFound { revision: found });
            let looked = located.next(JobEvent::CheckpointFound { file });
            let decoded = looked.next(JobEvent::CheckpointDecoded { checkpoint });
            &&& start.revision == revision
            &&& start.context == context
            &&& start.places == Set::<int>::empty()
            &&& start.request() is IdentifyNode
            &&& identified.request() is OpenDatabase
            &&& open.request() is ReadCounterpart
            &&& known.request() == (JobRequest::LoadContent::<R, D> { revision })
            &&& loaded.request() == (JobRequest::RequireRevision::<R, D> { counterpart })
            &&& nowhere.request() is LoadLatestContent
            &&& loaded.next(JobEvent::RevisionMissing { error }) == nowhere
            &&& latest.request() == (JobRequest::RequireRevision::<R, D> { counterpart })
            &&& latest.next(JobEvent::RevisionFound { revision: found }) == located
            &&& latest.next(JobEvent::RevisionMissing { error }).phase == (JobPhase::Failed::<R, D, E> {
                error: JobError::Step { error },
            })
            &&& located.request() == (JobRequest::ReadCheckpoint::<R, D> {
                key: "syndication/kubo/"@ + identity@,
            })
            &&& if file == Some(Some(ContentKind::Cbor)) {
                &&& looked.request() is DecodeCheckpoint
                &&& decoded.request() == (JobRequest::Slice::<R, D> {
                    sphere: found,
                    ancestor: Some(checkpoint.revision),
                })
                &&& decoded.places == super::filter::filter_places(checkpoint.syndicated_blocks)
            } else {
                &&& looked.request() == (JobRequest::Slice::<R, D> { sphere: found, ancestor: None })
                &&& looked.places == Set::<int>::empty()
            }
        }),
{
}

/// Once a checkpoint was asked to be written and was, the local sphere is asked
/// to be saved, and the job ends with success once it is.
pub proof fn law_written_checkpoint_is_saved<R, C, D, E>(state: JobState<R, C, D, E>)
    requires
        state.request() is WriteCheckpoint,
    ensures
        state.next(JobEvent::CheckpointWritten).request() is Save,
        state.next(JobEvent::CheckpointWritten).next(JobEvent::Saved).phase is Done,
{
}

/// Once the history is listed, either something of it is to be uploaded, or
/// there is nothing to upload and a checkpoint is to be written. Once something
/// was tried, either the next of it is to be uploaded, or a checkpoint is to be
/// written, or there was nothing to record and the job is done.
pub proof fn law_uploads_follow_the_listing<R, C, D, E>(
    revision: R,
    context: C,
    events: Seq<JobEvent<R, D, E>>,
)
    ensures
        ({
            let (state, log) = process_through::<R, C, D, E>(revision, context, events);
            &&& state.request() is Upload <==> {
                &&& state.phase !is Failed
                &&& log.tried.len() < log.timeline.len()
            }
            &&& log.timeline.len() > 0 && log.tried.len() == log.timeline.len() && log.written.len()
                == 0 && state.phase !is Failed ==> match log.syndicated(revision) {
                Some(_) => state.request() is WriteCheckpoint,
                None => state.phase is Done,
            }
        }),
{
    lemma_fits::<R, C, D, E>(revision, context, events);
}

} // verus!
