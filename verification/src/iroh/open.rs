//! Opening storage, and the stores of blocks in it.

use vstd::prelude::*;

use super::storage::{IrohStorage, IrohStore};

verus! {

/// How many threads the runtime of a storage has for work that stays on one
/// thread.
pub const LOCAL_THREADS: usize = 1;

/// Where the opening of a storage stands.
pub enum StoragePhase<H, P, E> {
    /// The directory is to be created, with those it lies in.
    CreateDirectory { path: P },
    /// The path of the directory is to be made canonical.
    Canonicalize { path: P },
    /// The runtime is to be looked up.
    FindRuntime { path: P },
    /// The storage is open, or could not be opened.
    Done { result: Result<IrohStorage<H, P>, E> },
}

/// What has to be done next.
pub enum StorageAction<'a, P> {
    /// Create the directory, and those it lies in, unless they exist.
    CreateDirectory { path: &'a P },
    /// Make a path absolute, and follow the links in it.
    Canonicalize { path: &'a P },
    /// Come by a handle to the current runtime.
    FindRuntime { local_threads: usize },
    /// Nothing is left to do: see [`StorageOpening::outcome`].
    Finish,
}

/// What came of an action.
pub enum StorageEvent<H, P, E> {
    DirectoryCreated,
    Canonical { path: P },
    Runtime { rt: H },
    /// The action did not succeed.
    Failed { error: E },
}

/// The opening of a storage.
pub struct StorageOpening<H, P, E> {
    pub phase: StoragePhase<H, P, E>,
}

impl<H, P> IrohStorage<H, P> {
    /// Opens the storage under a directory.
    pub fn new<E>(path: P) -> (opening: StorageOpening<H, P, E>)
        ensures
            opening.phase == (StoragePhase::<H, P, E>::CreateDirectory { path }),
    {
        StorageOpening { phase: StoragePhase::CreateDirectory { path } }
    }
}

impl<H, P, E> StorageOpening<H, P, E> {
    /// The phase that follows once the pending action has led to `event`; the
    /// same phase where `event` is no answer to that action.
    pub open spec fn phase_after(self, event: StorageEvent<H, P, E>) -> StoragePhase<H, P, E> {
        match (self.phase, event) {
            (StoragePhase::CreateDirectory { path }, StorageEvent::DirectoryCreated) =>
                StoragePhase::Canonicalize { path },
            (StoragePhase::Canonicalize { .. }, StorageEvent::Canonical { path }) =>
                StoragePhase::FindRuntime { path },
            (StoragePhase::FindRuntime { path }, StorageEvent::Runtime { rt }) =>
                StoragePhase::Done { result: Ok(IrohStorage { rt, path }) },
            (StoragePhase::Done { .. }, _) => self.phase,
            (_, StorageEvent::Failed { error }) => StoragePhase::Done { result: Err(error) },
            _ => self.phase,
        }
    }

    /// What has to be done next.
    pub open spec fn pending(&self) -> StorageAction<'_, P> {
        match &self.phase {
            StoragePhase::CreateDirectory { path } => StorageAction::CreateDirectory { path },
            StoragePhase::Canonicalize { path } => StorageAction::Canonicalize { path },
            StoragePhase::FindRuntime { .. } => StorageAction::FindRuntime {
                local_threads: LOCAL_THREADS,
            },
            StoragePhase::Done { .. } => StorageAction::Finish,
        }
    }

    /// What has to be done next.
    pub fn action(&self) -> (action: StorageAction<'_, P>)
        ensures
            action == self.pending(),
    {
        match &self.phase {
            StoragePhase::CreateDirectory { path } => StorageAction::CreateDirectory { path },
            StoragePhase::Canonicalize { path } => StorageAction::Canonicalize { path },
            StoragePhase::FindRuntime { .. } => StorageAction::FindRuntime {
                local_threads: LOCAL_THREADS,
            },
            StoragePhase::Done { .. } => StorageAction::Finish,
        }
    }

    /// Takes in what came of the pending action. An event that is no answer
    /// to that action changes nothing.
    pub fn step(self, event: StorageEvent<H, P, E>) -> (opening: Self)
        ensures
            opening.phase == self.phase_after(event),
    {
        let phase = match (self.phase, event) {
            (StoragePhase::CreateDirectory { path }, StorageEvent::DirectoryCreated) =>
                StoragePhase::Canonicalize { path },
            (StoragePhase::Canonicalize { .. }, StorageEvent::Canonical { path }) =>
                StoragePhase::FindRuntime { path },
            (StoragePhase::FindRuntime { path }, StorageEvent::Runtime { rt }) =>
                StoragePhase::Done { result: Ok(IrohStorage { rt, path }) },
            (StoragePhase::Done { result }, _) => StoragePhase::Done { result },
            (_, StorageEvent::Failed { error }) => StoragePhase::Done { result: Err(error) },
            (phase, _) => phase,
        };
        StorageOpening { phase }
    }

    /// How the opening ended; `None` while it goes on.
    pub fn outcome(self) -> (outcome: Option<Result<IrohStorage<H, P>, E>>)
        ensures
            match self.phase {
                StoragePhase::Done { result } => outcome == Some(result),
                _ => outcome is None,
            },
    {
        match self.phase {
            StoragePhase::Done { result } => Some(result),
            _ => None,
        }
    }
}

/// A directory of a store of blobs. It lies in the directory that has the name
/// of the store.
pub enum StoreDirectory {
    /// Where complete blobs are kept.
    Complete,
    /// Where blobs are kept of which parts are missing.
    Partial,
    /// Where the names of blobs are kept.
    Meta,
}

impl StoreDirectory {
    /// The name of the directory.
    pub open spec fn text(self) -> Seq<char> {
        match self {
            StoreDirectory::Complete => "complete"@,
            StoreDirectory::Partial => "partial"@,
            StoreDirectory::Meta => "meta"@,
        }
    }

    /// The name of the directory.
    pub fn name(&self) -> (name: &'static str)
        ensures
            name@ == self.text(),
    {
        match self {
            StoreDirectory::Complete => "complete",
            StoreDirectory::Partial => "partial",
            StoreDirectory::Meta => "meta",
        }
    }
}

/// Where the opening of a store of blocks stands.
pub enum StorePhase<B, E> {
    /// A directory is to be created, with those it lies in.
    CreateDirectory { directory: StoreDirectory },
    /// The store of blobs is to be loaded.
    Load,
    /// The store of blobs is loaded.
    Ready { db: B },
    /// The store could not be opened.
    Failed { error: E },
}

/// What has to be done next.
pub enum StoreAction<'a> {
    /// Create a directory in that of the store with this name, and those it
    /// lies in, unless they exist.
    CreateDirectory { store: &'a String, directory: &'a StoreDirectory },
    /// Load the store of blobs from the three directories of the store with
    /// this name.
    Load { store: &'a String },
    /// Nothing is left to do: see [`StoreOpening::outcome`].
    Finish,
}

/// What came of an action.
pub enum StoreEvent<B, E> {
    DirectoryCreated,
    Loaded { db: B },
    /// The action did not succeed.
    Failed { error: E },
}

/// The opening of a store of blocks.
pub struct StoreOpening<B, E> {
    pub name: String,
    pub phase: StorePhase<B, E>,
}

impl<B> IrohStore<B> {
    /// Opens the store of blocks with the given name.
    pub fn new<E>(name: &str) -> (opening: StoreOpening<B, E>)
        ensures
            opening.name@ == name@,
            opening.phase == (StorePhase::<B, E>::CreateDirectory {
                directory: StoreDirectory::Complete,
            }),
    {
        StoreOpening {
            name: name.to_owned(),
            phase: StorePhase::CreateDirectory { directory: StoreDirectory::Complete },
        }
    }
}

impl<B, E> StoreOpening<B, E> {
    /// The phase that follows once the pending action has led to `event`; the
    /// same phase where `event` is no answer to that action.
    pub open spec fn phase_after(self, event: StoreEvent<B, E>) -> StorePhase<B, E> {
        match (self.phase, event) {
            (StorePhase::CreateDirectory { directory }, StoreEvent::DirectoryCreated) =>
                match directory {
                    StoreDirectory::Complete => StorePhase::CreateDirectory {
                        directory: StoreDirectory::Partial,
                    },
                    StoreDirectory::Partial => StorePhase::CreateDirectory {
                        directory: StoreDirectory::Meta,
                    },
                    StoreDirectory::Meta => StorePhase::Load,
                },
            (StorePhase::Load, StoreEvent::Loaded { db }) => StorePhase::Ready { db },
            (StorePhase::CreateDirectory { .. }, StoreEvent::Failed { error }) =>
                StorePhase::Failed { error },
            (StorePhase::Load, StoreEvent::Failed { error }) => StorePhase::Failed { error },
            _ => self.phase,
        }
    }

    /// What has to be done next.
    pub open spec fn pending(&self) -> StoreAction<'_> {
        match &self.phase {
            StorePhase::CreateDirectory { directory } => StoreAction::CreateDirectory {
                store: &self.name,
                directory,
            },
            StorePhase::Load => StoreAction::Load { store: &self.name },
            _ => StoreAction::Finish,
        }
    }

    /// What has to be done next.
    pub fn action(&self) -> (action: StoreAction<'_>)
        ensures
            action == self.pending(),
    {
        match &self.phase {
            StorePhase::CreateDirectory { directory } => StoreAction::CreateDirectory {
                store: &self.name,
                directory,
            },
            StorePhase::Load => StoreAction::Load { store: &self.name },
            _ => StoreAction::Finish,
        }
    }

    /// Takes in what came of the pending action. An event that is no answer
    /// to that action changes nothing.
    pub fn step(self, event: StoreEvent<B, E>) -> (opening: Self)
        ensures
            opening.name == self.name,
            opening.phase == self.phase_after(event),
    {
        let StoreOpening { name, phase } = self;
        let phase = match (phase, event) {
            (StorePhase::CreateDirectory { directory }, StoreEvent::DirectoryCreated) =>
                match directory {
                    StoreDirectory::Complete => StorePhase::CreateDirectory {
                        directory: StoreDirectory::Partial,
                    },
                    StoreDirectory::Partial => StorePhase::CreateDirectory {
                        directory: StoreDirectory::Meta,
                    },
                    StoreDirectory::Meta => StorePhase::Load,
                },
            (StorePhase::Load, StoreEvent::Loaded { db }) => StorePhase::Ready { db },
            (StorePhase::CreateDirectory { .. }, StoreEvent::Failed { error }) =>
                StorePhase::Failed { error },
            (StorePhase::Load, StoreEvent::Failed { error }) => StorePhase::Failed { error },
            (phase, _) => phase,
        };
        StoreOpening { name, phase }
    }

    /// How the opening ended; `None` while it goes on.
    pub fn outcome(self) -> (outcome: Option<Result<IrohStore<B>, E>>)
        ensures
            match self.phase {
                StorePhase::Ready { db } => outcome == Some(
                    Ok::<IrohStore<B>, E>(IrohStore { db, name: self.name }),
                ),
                StorePhase::Failed { error } => outcome == Some(Err::<IrohStore<B>, E>(error)),
                _ => outcome is None,
            },
    {
        match self.phase {
            StorePhase::Ready { db } => Some(Ok(IrohStore { db, name: self.name })),
            StorePhase::Failed { error } => Some(Err(error)),
            _ => None,
        }
    }
}

/// The opening of a store, begun as `opening`, after `events`.
pub open spec fn opening_through<B, E>(
    opening: StoreOpening<B, E>,
    events: Seq<StoreEvent<B, E>>,
) -> StoreOpening<B, E>
    decreases events.len(),
{
    if events.len() == 0 {
        opening
    } else {
        let before = opening_through(opening, events.drop_last());
        StoreOpening { name: opening.name, phase: before.phase_after(events.last()) }
    }
}

/// The directories that were created in the course of `events`, in this order,
/// each with the name of the store that it was created for.
pub open spec fn created<B, E>(
    opening: StoreOpening<B, E>,
    events: Seq<StoreEvent<B, E>>,
) -> Seq<(String, StoreDirectory)>
    decreases events.len(),
{
    if events.len() == 0 {
        Seq::empty()
    } else {
        let earlier = created(opening, events.drop_last());
        match (opening_through(opening, events.drop_last()).pending(), events.last()) {
            (StoreAction::CreateDirectory { store, directory }, StoreEvent::DirectoryCreated) =>
                earlier.push((*store, *directory)),
            _ => earlier,
        }
    }
}

/// A store of blobs is loaded only once all three of its directories have been
/// created, and the store that is opened has the name that was asked for.
pub proof fn law_directories_exist_before_loading<B, E>(
    opening: StoreOpening<B, E>,
    events: Seq<StoreEvent<B, E>>,
)
    requires
        opening.phase == (StorePhase::<B, E>::CreateDirectory {
            directory: StoreDirectory::Complete,
        }),
    ensures
        opening_through(opening, events).name == opening.name,
        match opening_through(opening, events).phase {
            StorePhase::CreateDirectory { directory: StoreDirectory::Complete } => created(
                opening,
                events,
            ) == Seq::<(String, StoreDirectory)>::empty(),
            StorePhase::CreateDirectory { directory: StoreDirectory::Partial } => created(
                opening,
                events,
            ) == seq![(opening.name, StoreDirectory::Complete)],
            StorePhase::CreateDirectory { directory: StoreDirectory::Meta } => created(
                opening,
                events,
            ) == seq![
                (opening.name, StoreDirectory::Complete),
                (opening.name, StoreDirectory::Partial),
            ],
            StorePhase::Load | StorePhase::Ready { .. } => created(opening, events) == seq![
                (opening.name, StoreDirectory::Complete),
                (opening.name, StoreDirectory::Partial),
                (opening.name, StoreDirectory::Meta),
            ],
            StorePhase::Failed { .. } => true,
        },
    decreases events.len(),
{
    if events.len() > 0 {
        law_directories_exist_before_loading(opening, events.drop_last());
    }
}

/// Whether `event` is an answer to `action`, in the opening of a store.
pub open spec fn store_answers<B, E>(action: StoreAction<'_>, event: StoreEvent<B, E>) -> bool {
    match (action, event) {
        (StoreAction::Finish, _) => false,
        (_, StoreEvent::Failed { .. }) => true,
        (StoreAction::CreateDirectory { .. }, StoreEvent::DirectoryCreated) => true,
        (StoreAction::Load { .. }, StoreEvent::Loaded { .. }) => true,
        _ => false,
    }
}

/// There is nothing left to do exactly at the end.
/// An event has an effect on the opening of a store exactly if it answers the
/// action that was asked for. An answer that the action failed ends the opening
/// with that error, and no other answer ends it with an error.
pub proof fn law_store_opening_goes_by_answers<B, E>(
    opening: StoreOpening<B, E>,
    event: StoreEvent<B, E>,
)
    ensures
        opening.pending() is Finish <==> opening.phase is Ready || opening.phase is Failed,
        opening.phase_after(event) == opening.phase <==> !store_answers(opening.pending(), event),
        store_answers(opening.pending(), event) ==> match event {
            StoreEvent::Failed { error } => opening.phase_after(event) == (StorePhase::Failed::<B, E> {
                error,
            }),
            _ => opening.phase_after(event) !is Failed,
        },
{
}

/// What is asked for to open a store, where nothing fails: its three
/// directories, each created for the store of that name, and then the store of
/// blobs in them. The store of blobs that is loaded is the one that comes out.
pub proof fn law_store_opening_takes_these_steps<B, E>(name: String, db: B)
    ensures
        ({
            let start = StoreOpening::<B, E> {
                name,
                phase: StorePhase::CreateDirectory { directory: StoreDirectory::Complete },
            };
            let first = StoreOpening {
                name,
                phase: start.phase_after(StoreEvent::DirectoryCreated),
            };
            let second = StoreOpening {
                name,
                phase: first.phase_after(StoreEvent::DirectoryCreated),
            };
            let third = StoreOpening {
                name,
                phase: second.phase_after(StoreEvent::DirectoryCreated),
            };
            &&& start.pending() matches StoreAction::CreateDirectory { store, directory } && *store
                == name && directory.text() == "complete"@
            &&& first.pending() matches StoreAction::CreateDirectory { store, directory } && *store
                == name && directory.text() == "partial"@
            &&& second.pending() matches StoreAction::CreateDirectory { store, directory } && *store
                == name && directory.text() == "meta"@
            &&& third.pending() matches StoreAction::Load { store } && *store == name
            &&& third.phase_after(StoreEvent::Loaded { db }) == (StorePhase::Ready::<B, E> { db })
        }),
{
}

/// Whether `event` is an answer to `action`, in the opening of a storage.
pub open spec fn storage_answers<H, P, E>(
    action: StorageAction<'_, P>,
    event: StorageEvent<H, P, E>,
) -> bool {
    match (action, event) {
        (StorageAction::Finish, _) => false,
        (_, StorageEvent::Failed { .. }) => true,
        (StorageAction::CreateDirectory { .. }, StorageEvent::DirectoryCreated) => true,
        (StorageAction::Canonicalize { .. }, StorageEvent::Canonical { .. }) => true,
        (StorageAction::FindRuntime { .. }, StorageEvent::Runtime { .. }) => true,
        _ => false,
    }
}

/// There is nothing left to do exactly at the end.
/// An event has an effect on the opening of a storage exactly if it answers the
/// action that was asked for. An answer that the action failed ends the opening
/// with that error, and no other answer ends it with an error.
pub proof fn law_storage_opening_goes_by_answers<H, P, E>(
    opening: StorageOpening<H, P, E>,
    event: StorageEvent<H, P, E>,
)
    ensures
        opening.pending() is Finish <==> opening.phase is Done,
        opening.phase_after(event) == opening.phase <==> !storage_answers(opening.pending(), event),
        storage_answers(opening.pending(), event) ==> match event {
            StorageEvent::Failed { error } => opening.phase_after(event) == (StoragePhase::Done::<
                H,
                P,
                E,
            > { result: Err(error) }),
            _ => !(opening.phase_after(event) matches StoragePhase::Done { result: Err(_) }),
        },
{
}

/// What is asked for to open a storage, where nothing fails: the directory is
/// created, its path made canonical, and a runtime with one local thread looked
/// up. The storage that comes out has the canonical path and that runtime.
pub proof fn law_storage_opening_takes_these_steps<H, P, E>(path: P, canonical: P, rt: H)
    ensures
        ({
            let start = StorageOpening::<H, P, E> { phase: StoragePhase::CreateDirectory { path } };
            let created = StorageOpening {
                phase: start.phase_after(StorageEvent::DirectoryCreated),
            };
            let resolved = StorageOpening {
                phase: created.phase_after(StorageEvent::Canonical { path: canonical }),
            };
            &&& start.pending() matches StorageAction::CreateDirectory { path: at } && *at == path
            &&& created.pending() matches StorageAction::Canonicalize { path: at } && *at == path
            &&& resolved.pending() matches StorageAction::FindRuntime { local_threads }
                && local_threads == 1
            &&& resolved.phase_after(StorageEvent::Runtime { rt }) == (StoragePhase::Done::<H, P, E> {
                result: Ok(IrohStorage { rt, path: canonical }),
            })
        }),
{
}

} // verus!
