use deterministic_bloom::const_size::BloomFilter;
use noosphere::content::ContentKind;
use noosphere::syndication::checkpoint::{
    checkpoint_key, identify_failure, SyndicationCheckpoint, SyndicationJob,
};
use noosphere::syndication::filter::insert_all;
use noosphere::syndication::job::{process_job, JobAction, JobError, JobEvent, ProcessJob};
use noosphere::syndication::task::{
    start_ipfs_syndication, SyndicationTask, TaskAction, TaskEvent,
};

type Process = ProcessJob<String, &'static str, String, String>;

fn job(revision: &str) -> SyndicationJob<String, &'static str> {
    SyndicationJob { revision: revision.to_string(), context: "gateway" }
}

/// A gateway sphere, its counterpart, and an IPFS node.
struct World {
    /// The revisions of the counterpart sphere. The latest version of the
    /// gateway sphere links to the last of them.
    history: Vec<String>,
    /// Earlier revisions of the gateway sphere, each with the revision of the
    /// counterpart sphere that it links to, if it links to one.
    links: Vec<(String, Option<String>)>,
    /// The link in the content that was loaded, if it holds one.
    at_hand: Option<Option<String>>,
    /// What the gateway sphere has under the key of the checkpoint.
    stored: Option<(Option<ContentKind>, SyndicationCheckpoint<String>)>,
    /// Revisions that the IPFS node does not take.
    refused: Vec<String>,
    /// The revisions that were uploaded.
    uploaded: Vec<String>,
    saved: usize,
}

impl World {
    fn new(history: &[&str]) -> Self {
        World {
            history: history.iter().map(|revision| revision.to_string()).collect(),
            links: Vec::new(),
            at_hand: None,
            stored: None,
            refused: Vec::new(),
            uploaded: Vec::new(),
            saved: 0,
        }
    }

    /// The address of the block that is new in a revision.
    fn block(revision: &str) -> Vec<u8> {
        format!("block of {revision}").into_bytes()
    }

    fn answer(&mut self, action: JobAction<String, String>) -> Option<JobEvent<String, String, String>> {
        Some(match action {
            JobAction::IdentifyNode => JobEvent::NodeIdentified { identity: "QmNode".to_string() },
            JobAction::OpenDatabase => JobEvent::DatabaseOpened,
            JobAction::ReadCounterpart => JobEvent::CounterpartFound {
                counterpart: "did:user".to_string(),
            },
            JobAction::LoadContent { revision } => {
                if let Some((_, link)) = self.links.iter().find(|(local, _)| local == revision) {
                    self.at_hand = Some(link.clone());
                    JobEvent::ContentLoaded
                } else if self.history.contains(revision) {
                    // The content of the counterpart sphere has no link to itself.
                    self.at_hand = Some(None);
                    JobEvent::ContentLoaded
                } else {
                    JobEvent::ContentMissing
                }
            }
            JobAction::LoadLatestContent => {
                self.at_hand = Some(self.history.last().cloned());
                JobEvent::ContentLoaded
            }
            JobAction::RequireRevision { counterpart } => {
                assert_eq!(counterpart, "did:user");
                match self.at_hand.take().unwrap() {
                    Some(revision) => JobEvent::RevisionFound { revision },
                    None => JobEvent::RevisionMissing { error: "no link".to_string() },
                }
            }
            JobAction::ReadCheckpoint { key } => {
                assert_eq!(key, "syndication/kubo/QmNode");
                JobEvent::CheckpointFound { file: self.stored.as_ref().map(|file| file.0) }
            }
            JobAction::DecodeCheckpoint => {
                let (_, checkpoint) = self.stored.as_ref().unwrap();
                JobEvent::CheckpointDecoded {
                    checkpoint: SyndicationCheckpoint {
                        revision: checkpoint.revision.clone(),
                        syndicated_blocks: checkpoint.syndicated_blocks.clone(),
                    },
                }
            }
            JobAction::Slice { sphere, ancestor } => {
                let place = |wanted: &String| {
                    self.history.iter().position(|revision| revision == wanted).unwrap() + 1
                };
                let from = ancestor.as_ref().map(place).unwrap_or(0);
                let timeline = self.history[from..place(sphere)].to_vec();
                JobEvent::Sliced { timeline }
            }
            JobAction::Upload { revision } => {
                if self.refused.contains(revision) {
                    JobEvent::UploadFailed
                } else {
                    self.uploaded.push(revision.clone());
                    JobEvent::Uploaded { blocks: vec![World::block(revision)] }
                }
            }
            JobAction::WriteCheckpoint { key, kind, revision, syndicated_blocks } => {
                assert_eq!(key, "syndication/kubo/QmNode");
                assert_eq!(kind, ContentKind::Cbor);
                self.stored = Some((
                    Some(kind),
                    SyndicationCheckpoint {
                        revision: revision.clone(),
                        syndicated_blocks: syndicated_blocks.clone(),
                    },
                ));
                JobEvent::CheckpointWritten
            }
            JobAction::Save => {
                self.saved += 1;
                JobEvent::Saved
            }
            JobAction::Finish => return None,
        })
    }

    fn process(&mut self, job: SyndicationJob<String, &'static str>) -> Result<(), JobError<String>> {
        let mut process: Process = process_job(job);
        while let Some(event) = self.answer(process.action()) {
            process = process.step(event);
        }
        process.outcome().unwrap()
    }

    fn checkpoint(&self) -> &SyndicationCheckpoint<String> {
        &self.stored.as_ref().unwrap().1
    }

    fn finds(&self, revision: &str) -> bool {
        self.checkpoint().syndicated_blocks.contains(&World::block(revision))
    }
}

/// The task that syndicates to the node at `ipfs_api`, once it is connected.
fn connected_task(ipfs_api: &str) -> SyndicationTask<String, &'static str, String> {
    let task = start_ipfs_syndication(ipfs_api.to_string());
    match task.action() {
        TaskAction::Connect { ipfs_api: at } => assert_eq!(at, ipfs_api),
        _ => panic!("no connection"),
    }
    task.step(TaskEvent::Connected)
}

#[test]
fn it_syndicates_a_sphere_revision_to_kubo() {
    // One version with `bar` under `foo`, and one with `bar` under `baz` too.
    let contents = [("foo", "bar"), ("baz", "bar")];
    let versions: Vec<String> = contents
        .iter()
        .map(|(slug, text)| format!("{slug}: {text}"))
        .collect();
    let mut world = World::new(&[&versions[0], &versions[1]]);
    let mut task = connected_task("http://127.0.0.1:5001");
    let mut jobs = vec![job(&versions[1])];
    loop {
        let event = match task.action() {
            TaskAction::Receive => TaskEvent::Received { job: jobs.pop() },
            TaskAction::Process { job } => TaskEvent::Processed {
                result: world
                    .process(SyndicationJob {
                        revision: job.revision.clone(),
                        context: job.context,
                    })
                    .map_err(|_| "not syndicated".to_string()),
            },
            TaskAction::Connect { .. } => panic!("connected already"),
            TaskAction::Finish => break,
        };
        task = task.step(event);
    }
    assert_eq!(task.outcome(), Some(Ok(())));
    assert!(world.uploaded.contains(&versions[1]));
    assert_eq!(world.uploaded, versions);
    assert_eq!(world.checkpoint().revision, versions[1]);
    assert_eq!(world.saved, 1);
}

#[test]
fn counterpart_is_discovered_from_the_revision_of_the_job() {
    let mut world = World::new(&["one", "two", "three"]);
    world.links.push(("local".to_string(), Some("two".to_string())));
    world.process(job("local")).unwrap();
    assert_eq!(world.uploaded, ["one", "two"]);
    assert_eq!(world.checkpoint().revision, "local");
}

#[test]
fn counterpart_is_discovered_from_the_latest_version_otherwise() {
    let mut world = World::new(&["one", "two"]);
    world.links.push(("local".to_string(), None));
    world.process(job("local")).unwrap();
    assert_eq!(world.uploaded, ["one", "two"]);
    let mut world = World::new(&["one", "two"]);
    world.process(job("unknown")).unwrap();
    assert_eq!(world.uploaded, ["one", "two"]);
}

#[test]
fn missing_counterpart_ends_the_job() {
    let mut world = World::new(&[]);
    match world.process(job("unknown")) {
        Err(JobError::Step { error }) => assert_eq!(error, "no link"),
        _ => panic!("no error"),
    }
    assert!(world.stored.is_none());
}

#[test]
fn history_starts_at_the_checkpoint() {
    let mut world = World::new(&["one", "two"]);
    world.process(job("two")).unwrap();
    world.history.push("three".to_string());
    world.process(job("three")).unwrap();
    assert_eq!(world.uploaded, ["one", "two", "three"]);
    world.process(job("three")).unwrap();
    assert_eq!(world.uploaded, ["one", "two", "three"]);
    assert_eq!(world.saved, 3);
}

#[test]
fn checkpoint_of_another_kind_is_passed_over() {
    for kind in [None, Some(ContentKind::Subtext), Some(ContentKind::Other)] {
        let mut world = World::new(&["one", "two"]);
        let mut syndicated_blocks = BloomFilter::default();
        syndicated_blocks.insert(&World::block("zero"));
        let checkpoint = SyndicationCheckpoint { revision: "one".to_string(), syndicated_blocks };
        world.stored = Some((kind, checkpoint));
        world.process(job("two")).unwrap();
        assert_eq!(world.uploaded, ["one", "two"]);
        assert!(!world.finds("zero"));
    }
}

#[test]
fn failed_upload_does_not_end_the_job() {
    let mut world = World::new(&["one", "two", "three"]);
    world.refused.push("two".to_string());
    assert!(world.process(job("three")).is_ok());
    assert_eq!(world.uploaded, ["one", "three"]);
    assert_eq!(world.checkpoint().revision, "one");
    assert!(world.finds("one"));
    assert!(!world.finds("two"));
    assert!(world.finds("three"));
}

#[test]
fn failed_revision_is_sent_again_by_the_next_job() {
    let mut world = World::new(&["one", "two", "three"]);
    world.refused.push("two".to_string());
    world.process(job("three")).unwrap();
    world.refused.clear();
    world.history.push("four".to_string());
    world.process(job("four")).unwrap();
    assert_eq!(world.uploaded, ["one", "three", "two", "three", "four"]);
    assert_eq!(world.checkpoint().revision, "four");
    assert!(world.finds("two"));
}

#[test]
fn checkpoint_stays_before_the_first_of_several_failures() {
    let mut world = World::new(&["one", "two", "three", "four", "five"]);
    world.refused.push("three".to_string());
    world.refused.push("five".to_string());
    world.process(job("five")).unwrap();
    assert_eq!(world.uploaded, ["one", "two", "four"]);
    assert_eq!(world.checkpoint().revision, "two");
}

#[test]
fn earlier_checkpoint_stands_if_the_first_upload_fails() {
    let mut world = World::new(&["one"]);
    world.process(job("one")).unwrap();
    world.history.push("two".to_string());
    world.history.push("three".to_string());
    world.refused.push("two".to_string());
    world.process(job("three")).unwrap();
    assert_eq!(world.checkpoint().revision, "one");
    assert_eq!(world.saved, 2);
    assert!(world.finds("one"));
    assert!(world.finds("three"));
    assert!(!world.finds("two"));
}

#[test]
fn no_checkpoint_is_written_if_nothing_was_syndicated_in_a_row() {
    let mut world = World::new(&["one"]);
    world.refused.push("one".to_string());
    assert!(world.process(job("one")).is_ok());
    assert!(world.stored.is_none());
    assert_eq!(world.saved, 0);
    world.refused.clear();
    world.process(job("one")).unwrap();
    assert_eq!(world.uploaded, ["one"]);
    assert_eq!(world.checkpoint().revision, "one");
}

#[test]
fn syndicated_blocks_are_found() {
    let mut world = World::new(&["one"]);
    world.process(job("one")).unwrap();
    assert!(world.finds("one"));
    assert!(!world.finds("two"));
    world.history.push("two".to_string());
    world.process(job("two")).unwrap();
    assert!(world.finds("one"));
    assert!(world.finds("two"));
    let mut expected = BloomFilter::<256, 30>::default();
    expected.insert(&World::block("one"));
    expected.insert(&World::block("two"));
    assert_eq!(world.checkpoint().syndicated_blocks.as_bytes(), expected.as_bytes());
}

#[test]
fn inserted_items_are_found_and_nothing_is_lost() {
    let mut filter = BloomFilter::<256, 30>::default();
    insert_all(&mut filter, &vec![b"first".to_vec()]);
    assert!(filter.contains(b"first"));
    assert!(!filter.contains(b"second"));
    insert_all(&mut filter, &vec![b"second".to_vec(), b"third".to_vec()]);
    assert!(filter.contains(b"first"));
    assert!(filter.contains(b"second"));
    assert!(filter.contains(b"third"));
    insert_all(&mut filter, &vec![]);
    assert!(filter.contains(b"first"));
}

#[test]
fn new_job_has_an_empty_filter() {
    let process: Process = process_job(job("one"));
    assert_eq!(process.syndicated_blocks.count_ones(), 0);
}

#[test]
fn unidentified_node_ends_the_job() {
    let process: Process = process_job(job("one"));
    let process = process.step(JobEvent::Failed { error: "refused".to_string() });
    match process.outcome() {
        Some(Err(JobError::Unidentified { error })) => assert_eq!(
            identify_failure("http://127.0.0.1:5001/", &error),
            "Failed to identify an IPFS Kubo node at http://127.0.0.1:5001/: refused"
        ),
        _ => panic!("no error"),
    }
}

#[test]
fn failed_step_ends_the_job() {
    let process: Process = process_job(job("one"));
    let process = process
        .step(JobEvent::NodeIdentified { identity: "QmNode".to_string() })
        .step(JobEvent::Saved)
        .step(JobEvent::DatabaseOpened)
        .step(JobEvent::Failed { error: "no counterpart".to_string() })
        .step(JobEvent::ContentLoaded);
    assert!(matches!(process.action(), JobAction::Finish));
    match process.outcome() {
        Some(Err(JobError::Step { error })) => assert_eq!(error, "no counterpart"),
        _ => panic!("no error"),
    }
}

#[test]
fn nodes_have_checkpoints_of_their_own() {
    assert_eq!(checkpoint_key("QmNode"), "syndication/kubo/QmNode");
    assert_ne!(checkpoint_key("QmNode"), checkpoint_key("QmOther"));
}

#[test]
fn failed_job_does_not_end_the_task() {
    let task = connected_task("http://127.0.0.1:5001")
        .step(TaskEvent::Received { job: Some(job("one")) })
        .step(TaskEvent::Processed { result: Err("offline".to_string()) });
    assert!(matches!(task.action(), TaskAction::Receive));
    let task = task.step(TaskEvent::Received { job: None });
    assert_eq!(task.outcome(), Some(Ok(())));
}

#[test]
fn every_job_is_processed_in_order() {
    let mut task = connected_task("http://127.0.0.1:5001");
    let mut jobs = vec![job("three"), job("two"), job("one")];
    let mut processed = Vec::new();
    loop {
        let event = match task.action() {
            TaskAction::Receive => TaskEvent::Received { job: jobs.pop() },
            TaskAction::Process { job } => {
                processed.push(job.revision.clone());
                TaskEvent::Processed { result: Err("offline".to_string()) }
            }
            TaskAction::Connect { .. } => panic!("connected already"),
            TaskAction::Finish => break,
        };
        task = task.step(event);
    }
    assert_eq!(processed, ["one", "two", "three"]);
    assert_eq!(task.outcome(), Some(Ok(())));
}

#[test]
fn failed_connection_ends_the_task() {
    let task: SyndicationTask<String, &'static str, String> =
        start_ipfs_syndication("http://127.0.0.1:5001".to_string());
    let task = task.step(TaskEvent::ConnectFailed { error: "no client".to_string() });
    assert_eq!(task.outcome(), Some(Err("no client".to_string())));
}
