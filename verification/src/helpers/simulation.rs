//! Ephemeral sphere contexts for use in examples and trials.

use vstd::prelude::*;

verus! {

/// Access levels available when simulating a sphere context.
#[derive(Clone, Copy, Debug, PartialEq, Eq, Structural)]
pub enum SimulationAccess {
    Readonly,
    ReadWrite,
}

/// Where the simulation of a sphere context stands. `B` is the type of
/// databases, `D` that of identities, `V` that of versions of spheres, `P` that
/// of proofs of authority, `X` that of sphere contexts.
pub enum SimulationPhase<B, D, V, P, X, E> {
    /// A database that lives in memory and tracks its usage is to be opened.
    OpenDatabase,
    /// A key is to be generated, and its identity told.
    GenerateOwner { db: B },
    /// A sphere of `owner` is to be generated.
    GenerateSphere { db: B, owner: D },
    /// The identity of the new sphere is to be looked up.
    SphereIdentity { db: B, version: V, proof: P },
    /// The version of the new sphere is to be recorded as its latest.
    SetVersion { db: B, version: V, identity: D, authorization: Option<P> },
    /// The context is to be made.
    NewContext { db: B, identity: D, authorization: Option<P> },
    /// The context stands.
    Done { context: X },
    /// A step did not succeed.
    Failed { error: E },
}

/// What has to be done next.
pub enum SimulationAction<'a, B, D, V, P> {
    /// Open a database that lives in memory and tracks its usage.
    OpenDatabase,
    /// Generate the key of an owner, and tell its identity.
    GenerateOwner,
    /// Generate a sphere in `db`.
    GenerateSphere { db: &'a B, owner: &'a D },
    /// Look up the identity of the sphere with that `version`.
    SphereIdentity { version: &'a V },
    /// Record `version` in `db`, as the latest of `identity`.
    SetVersion { db: &'a B, identity: &'a D, version: &'a V },
    /// Make the context of the sphere `identity` in `db`, whose author has the
    /// owner's key and `authorization`.
    NewContext { db: &'a B, identity: &'a D, authorization: &'a Option<P> },
    /// Nothing is left to do: see [`Simulation::outcome`].
    Finish,
}

/// What came of an action.
pub enum SimulationEvent<B, D, V, P, X, E> {
    DatabaseOpened { db: B },
    OwnerGenerated { owner: D },
    /// A sphere was generated; `version` is its first version.
    SphereGenerated { version: V, proof: P },
    SphereIdentified { identity: D },
    VersionSet,
    ContextMade { context: X },
    /// The action did not succeed.
    Failed { error: E },
}

/// The simulation of a sphere context.
pub struct Simulation<B, D, V, P, X, E> {
    pub profile: SimulationAccess,
    pub phase: SimulationPhase<B, D, V, P, X, E>,
}

/// Starts to simulate a sphere context whose credentials have the access
/// `profile`, in the database `db`, or in one of its own if there is none.
pub fn simulated_sphere_context<B, D, V, P, X, E>(
    profile: SimulationAccess,
    db: Option<B>,
) -> (simulation: Simulation<B, D, V, P, X, E>)
    ensures
        simulation == Simulation::<B, D, V, P, X, E>::start(profile, db),
{
    let phase = match db {
        Some(db) => SimulationPhase::GenerateOwner { db },
        None => SimulationPhase::OpenDatabase,
    };
    Simulation { profile, phase }
}

/// What of `proof` an author with access `profile` holds.
pub open spec fn authorization_for<P>(profile: SimulationAccess, proof: P) -> Option<P> {
    match profile {
        SimulationAccess::Readonly => None,
        SimulationAccess::ReadWrite => Some(proof),
    }
}

impl<B, D, V, P, X, E> Simulation<B, D, V, P, X, E> {
    /// The start of a simulation in `db`, if there is a database.
    pub open spec fn start(profile: SimulationAccess, db: Option<B>) -> Self {
        Simulation {
            profile,
            phase: match db {
                Some(db) => SimulationPhase::GenerateOwner { db },
                None => SimulationPhase::OpenDatabase,
            },
        }
    }

    /// The phase that follows once the pending action has led to `event`; the
    /// same phase where `event` is no answer to that action.
    pub open spec fn phase_after(self, event: SimulationEvent<B, D, V, P, X, E>) -> SimulationPhase<B, D, V, P, X, E> {
        match (self.phase, event) {
            (SimulationPhase::OpenDatabase, SimulationEvent::DatabaseOpened { db }) =>
                SimulationPhase::GenerateOwner { db },
            (SimulationPhase::GenerateOwner { db }, SimulationEvent::OwnerGenerated { owner }) =>
                SimulationPhase::GenerateSphere { db, owner },
            (
                SimulationPhase::GenerateSphere { db, .. },
                SimulationEvent::SphereGenerated { version, proof },
            ) =>
                SimulationPhase::SphereIdentity { db, version, proof },
            (
                SimulationPhase::SphereIdentity { db, version, proof },
                SimulationEvent::SphereIdentified { identity },
            ) =>
                SimulationPhase::SetVersion {
                    db,
                    version,
                    identity,
                    authorization: authorization_for(self.profile, proof),
                },
            (SimulationPhase::SetVersion { db, identity, authorization, .. }, SimulationEvent::VersionSet) =>
                SimulationPhase::NewContext { db, identity, authorization },
            (SimulationPhase::NewContext { .. }, SimulationEvent::ContextMade { context }) =>
                SimulationPhase::Done { context },
            (SimulationPhase::Done { .. }, _) => self.phase,
            (SimulationPhase::Failed { .. }, _) => self.phase,
            (_, SimulationEvent::Failed { error }) => SimulationPhase::Failed { error },
            _ => self.phase,
        }
    }

    /// What has to be done next.
    pub open spec fn pending(&self) -> SimulationAction<'_, B, D, V, P> {
        match &self.phase {
            SimulationPhase::OpenDatabase => SimulationAction::OpenDatabase,
            SimulationPhase::GenerateOwner { .. } => SimulationAction::GenerateOwner,
            SimulationPhase::GenerateSphere { db, owner } => SimulationAction::GenerateSphere { db, owner },
            SimulationPhase::SphereIdentity { version, .. } => SimulationAction::SphereIdentity { version },
            SimulationPhase::SetVersion { db, version, identity, .. } => SimulationAction::SetVersion {
                db,
                identity,
                version,
            },
            SimulationPhase::NewContext { db, identity, authorization } => SimulationAction::NewContext {
                db,
                identity,
                authorization,
            },
            SimulationPhase::Done { .. } => SimulationAction::Finish,
            SimulationPhase::Failed { .. } => SimulationAction::Finish,
        }
    }

    /// What has to be done next.
    pub fn action(&self) -> (action: SimulationAction<'_, B, D, V, P>)
        ensures
            action == self.pending(),
    {
        match &self.phase {
            SimulationPhase::OpenDatabase => SimulationAction::OpenDatabase,
            SimulationPhase::GenerateOwner { .. } => SimulationAction::GenerateOwner,
            SimulationPhase::GenerateSphere { db, owner } => SimulationAction::GenerateSphere { db, owner },
            SimulationPhase::SphereIdentity { version, .. } => SimulationAction::SphereIdentity { version },
            SimulationPhase::SetVersion { db, version, identity, .. } => SimulationAction::SetVersion {
                db,
                identity,
                version,
            },
            SimulationPhase::NewContext { db, identity, authorization } => SimulationAction::NewContext {
                db,
                identity,
                authorization,
            },
            SimulationPhase::Done { .. } => SimulationAction::Finish,
            SimulationPhase::Failed { .. } => SimulationAction::Finish,
        }
    }

    /// Takes in what came of the pending action. An event that is no answer
    /// to that action changes nothing.
    pub fn step(self, event: SimulationEvent<B, D, V, P, X, E>) -> (simulation: Self)
        ensures
            simulation.profile == self.profile,
            simulation.phase == self.phase_after(event),
    {
        let Simulation { profile, phase } = self;
        let phase = match (phase, event) {
            (SimulationPhase::OpenDatabase, SimulationEvent::DatabaseOpened { db }) =>
                SimulationPhase::GenerateOwner { db },
            (SimulationPhase::GenerateOwner { db }, SimulationEvent::OwnerGenerated { owner }) =>
                SimulationPhase::GenerateSphere { db, owner },
            (
                SimulationPhase::GenerateSphere { db, .. },
                SimulationEvent::SphereGenerated { version, proof },
            ) =>
                SimulationPhase::SphereIdentity { db, version, proof },
            (
                SimulationPhase::SphereIdentity { db, version, proof },
                SimulationEvent::SphereIdentified { identity },
            ) =>
                SimulationPhase::SetVersion {
                    db,
                    version,
                    identity,
                    authorization: match profile {
                        SimulationAccess::Readonly => None,
                        SimulationAccess::ReadWrite => Some(proof),
                    },
                },
            (SimulationPhase::SetVersion { db, identity, authorization, .. }, SimulationEvent::VersionSet) =>
                SimulationPhase::NewContext { db, identity, authorization },
            (SimulationPhase::NewContext { .. }, SimulationEvent::ContextMade { context }) =>
                SimulationPhase::Done { context },
            (SimulationPhase::Done { context }, _) => SimulationPhase::Done { context },
            (SimulationPhase::Failed { error }, _) => SimulationPhase::Failed { error },
            (_, SimulationEvent::Failed { error }) => SimulationPhase::Failed { error },
            (phase, _) => phase,
        };
        Simulation { profile, phase }
    }

    /// The context that was made, or the error that ended the simulation;
    /// `None` while it is under way.
    pub fn outcome(self) -> (outcome: Option<Result<X, E>>)
        ensures
            match self.phase {
                SimulationPhase::Done { context } => outcome == Some(Ok::<X, E>(context)),
                SimulationPhase::Failed { error } => outcome == Some(Err::<X, E>(error)),
                _ => outcome is None,
            },
    {
        match self.phase {
            SimulationPhase::Done { context } => Some(Ok(context)),
            SimulationPhase::Failed { error } => Some(Err(error)),
            _ => None,
        }
    }
}

/// What a simulation has come across and brought about.
#[verifier::ext_equal]
pub struct SimulationLog<B, D, V, P> {
    /// The databases that were opened.
    pub opened: Seq<B>,
    /// The spheres that were generated: the database that a sphere was
    /// generated in, its version, and the proof of authority that came with it.
    pub generated: Seq<(B, V, P)>,
    /// The versions that were recorded: the database that a version was
    /// recorded in, the sphere that it was recorded for, and the version.
    pub recorded: Seq<(B, D, V)>,
}

/// The simulation of a context from its start through `events`: where it
/// stands, and what it has come across and brought about.
pub open spec fn simulate<B, D, V, P, X, E>(
    profile: SimulationAccess,
    db: Option<B>,
    events: Seq<SimulationEvent<B, D, V, P, X, E>>,
) -> (Simulation<B, D, V, P, X, E>, SimulationLog<B, D, V, P>)
    decreases events.len(),
{
    if events.len() == 0 {
        (
            Simulation::start(profile, db),
            SimulationLog { opened: Seq::empty(), generated: Seq::empty(), recorded: Seq::empty() },
        )
    } else {
        let (before, log) = simulate(profile, db, events.drop_last());
        let event = events.last();
        (
            Simulation { profile, phase: before.phase_after(event) },
            match (before.pending(), event) {
                (SimulationAction::OpenDatabase, SimulationEvent::DatabaseOpened { db }) =>
                    SimulationLog { opened: log.opened.push(db), ..log },
                (
                    SimulationAction::GenerateSphere { db, .. },
                    SimulationEvent::SphereGenerated { version, proof },
                ) => SimulationLog { generated: log.generated.push((*db, version, proof)), ..log },
                (
                    SimulationAction::SetVersion { db, version, identity },
                    SimulationEvent::VersionSet,
                ) => SimulationLog { recorded: log.recorded.push((*db, *identity, *version)), ..log },
                _ => log,
            },
        )
    }
}

/// The database that a simulation works in, if it has one by now.
pub open spec fn database_of<B, D, V, P, X, E>(phase: SimulationPhase<B, D, V, P, X, E>) -> Option<B> {
    match phase {
        SimulationPhase::GenerateOwner { db } => Some(db),
        SimulationPhase::GenerateSphere { db, .. } => Some(db),
        SimulationPhase::SphereIdentity { db, .. } => Some(db),
        SimulationPhase::SetVersion { db, .. } => Some(db),
        SimulationPhase::NewContext { db, .. } => Some(db),
        _ => None,
    }
}

/// The database that a simulation was started with, or else the one that it
/// opened, if it has opened one.
pub open spec fn own_database<B, D, V, P>(db: Option<B>, log: SimulationLog<B, D, V, P>) -> Option<B> {
    if db is Some {
        db
    } else if log.opened.len() > 0 {
        Some(log.opened[0])
    } else {
        None
    }
}

/// What holds of an unfailed simulation in each phase.
spec fn log_fits<B, D, V, P, X, E>(
    profile: SimulationAccess,
    db: Option<B>,
    phase: SimulationPhase<B, D, V, P, X, E>,
    log: SimulationLog<B, D, V, P>,
) -> bool {
    let own = own_database(db, log);
    &&& log.opened.len() <= (if db is Some {
        0nat
    } else {
        1nat
    })
    &&& phase is OpenDatabase ==> own is None
    &&& database_of(phase) is Some ==> database_of(phase) == own
    &&& phase is Done ==> own is Some && log.generated.len() == 1
    &&& log.generated.len() <= 1
    &&& log.generated.len() == 1 ==> own == Some(log.generated[0].0)
    &&& log.recorded.len() <= 1
    &&& log.recorded.len() == 1 ==> {
        &&& own == Some(log.recorded[0].0)
        &&& log.generated.len() == 1
        &&& log.recorded[0].2 == log.generated[0].1
    }
    &&& phase is OpenDatabase || phase is GenerateOwner || phase is GenerateSphere
        ==> log.generated.len() == 0
    &&& phase is NewContext || phase is Done || phase is Failed || log.recorded.len() == 0
    &&& match phase {
        SimulationPhase::SphereIdentity { db, version, proof } => log.generated == seq![
            (db, version, proof),
        ],
        SimulationPhase::SetVersion { version, authorization, .. } => {
            &&& log.generated.len() == 1
            &&& version == log.generated[0].1
            &&& authorization == authorization_for(profile, log.generated[0].2)
        },
        SimulationPhase::NewContext { db, identity, authorization } => {
            &&& log.generated.len() == 1
            &&& authorization == authorization_for(profile, log.generated[0].2)
            &&& log.recorded == seq![(db, identity, log.generated[0].1)]
        },
        SimulationPhase::Done { .. } => log.recorded.len() == 1,
        _ => true,
    }
}

proof fn lemma_log_fits<B, D, V, P, X, E>(
    profile: SimulationAccess,
    db: Option<B>,
    events: Seq<SimulationEvent<B, D, V, P, X, E>>,
)
    ensures
        ({
            let (reached, log) = simulate(profile, db, events);
            reached.profile == profile && log_fits(profile, db, reached.phase, log)
        }),
    decreases events.len(),
{
    if events.len() > 0 {
        lemma_log_fits(profile, db, events.drop_last());
        let (before, earlier) = simulate(profile, db, events.drop_last());
        let (reached, log) = simulate(profile, db, events);
        if before.phase is GenerateSphere && log.generated.len() > 0 {
            assert(log.generated =~= seq![log.generated[0]]);
        }
        if before.phase is SetVersion && log.recorded.len() > 0 {
            assert(log.recorded =~= seq![log.recorded[0]]);
        }
    }
}

/// A simulation that makes a context hands its author exactly the proof of
/// authority that came with the sphere if write access was asked for, and no
/// proof if it was not.
pub proof fn law_only_writers_are_authorized<B, D, V, P, X, E>(
    profile: SimulationAccess,
    db: Option<B>,
    events: Seq<SimulationEvent<B, D, V, P, X, E>>,
)
    ensures
        ({
            let (reached, log) = simulate(profile, db, events);
            &&& reached.pending() matches SimulationAction::NewContext { authorization, .. } ==> {
                &&& log.generated.len() == 1
                &&& match profile {
                    SimulationAccess::Readonly => *authorization is None,
                    SimulationAccess::ReadWrite => *authorization == Some(log.generated[0].2),
                }
            }
            &&& reached.phase matches SimulationPhase::SetVersion { authorization, .. } ==> {
                &&& log.generated.len() == 1
                &&& authorization == authorization_for(profile, log.generated[0].2)
            }
            &&& reached.phase matches SimulationPhase::NewContext { authorization, .. } ==> {
                &&& log.generated.len() == 1
                &&& authorization == authorization_for(profile, log.generated[0].2)
            }
        }),
{
    lemma_log_fits(profile, db, events);
}

/// A simulation works in the database that it was started with, or else in one
/// that it opens itself, and opens no other: there its sphere is generated, its
/// version recorded, and its context made.
pub proof fn law_simulation_stays_in_its_database<B, D, V, P, X, E>(
    profile: SimulationAccess,
    db: Option<B>,
    events: Seq<SimulationEvent<B, D, V, P, X, E>>,
)
    ensures
        ({
            let (reached, log) = simulate(profile, db, events);
            let own = own_database(db, log);
            &&& db is Some ==> log.opened.len() == 0
            &&& log.opened.len() <= 1
            &&& database_of(reached.phase) is Some ==> database_of(reached.phase) == own
            &&& forall|i: int|
                0 <= i < log.generated.len() ==> own == Some((#[trigger] log.generated[i]).0)
            &&& forall|i: int|
                0 <= i < log.recorded.len() ==> own == Some((#[trigger] log.recorded[i]).0)
        }),
{
    lemma_log_fits(profile, db, events);
}

/// Whether every sphere whose identity was looked up in the course of `events`
/// has the identity that `identity_of` tells for its version.
pub open spec fn identities_are_true<B, D, V, P, X, E>(
    profile: SimulationAccess,
    db: Option<B>,
    events: Seq<SimulationEvent<B, D, V, P, X, E>>,
    identity_of: spec_fn(V) -> D,
) -> bool
    decreases events.len(),
{
    events.len() == 0 || {
        &&& identities_are_true(profile, db, events.drop_last(), identity_of)
        &&& match (simulate(profile, db, events.drop_last()).0.pending(), events.last()) {
            (
                SimulationAction::SphereIdentity { version },
                SimulationEvent::SphereIdentified { identity },
            ) => identity == identity_of(*version),
            _ => true,
        }
    }
}

/// A context is made only once the version of the sphere that was generated has
/// been recorded, in the database of the context and as the latest of the
/// identity of the context, which is the identity of that sphere. Nothing else
/// is recorded.
pub proof fn law_recorded_version_is_that_of_the_new_sphere<B, D, V, P, X, E>(
    profile: SimulationAccess,
    db: Option<B>,
    events: Seq<SimulationEvent<B, D, V, P, X, E>>,
    identity_of: spec_fn(V) -> D,
)
    requires
        identities_are_true(profile, db, events, identity_of),
    ensures
        ({
            let (reached, log) = simulate(profile, db, events);
            &&& log.recorded.len() <= 1
            &&& forall|i: int|
                0 <= i < log.recorded.len() ==> {
                    let version = log.generated[0].1;
                    &&& log.generated.len() == 1
                    &&& #[trigger] log.recorded[i] == (
                        log.generated[0].0,
                        identity_of(version),
                        version,
                    )
                }
            &&& reached.phase is NewContext || reached.phase is Done ==> log.recorded.len() == 1
            &&& reached.pending() matches SimulationAction::NewContext { db, identity, .. } ==> {
                let version = log.generated[0].1;
                &&& *identity == identity_of(version)
                &&& log.recorded == seq![(*db, *identity, version)]
            }
            &&& reached.phase matches SimulationPhase::SetVersion { version, identity, .. }
                ==> identity == identity_of(version)
        }),
    decreases events.len(),
{
    lemma_log_fits(profile, db, events);
    if events.len() > 0 {
        lemma_log_fits(profile, db, events.drop_last());
        law_recorded_version_is_that_of_the_new_sphere(
            profile,
            db,
            events.drop_last(),
            identity_of,
        );
    }
}

/// Two simulations that are started without a database share no storage, as
/// databases are opened anew: neither records a version in the database of the
/// other.
pub proof fn law_simulations_share_no_database<B, D, V, P, X, E>(
    first: SimulationAccess,
    first_events: Seq<SimulationEvent<B, D, V, P, X, E>>,
    second: SimulationAccess,
    second_events: Seq<SimulationEvent<B, D, V, P, X, E>>,
    identity: D,
    version: V,
)
    requires
        ({
            let log = simulate(first, None, first_events).1;
            let other = simulate(second, None, second_events).1;
            &&& log.opened.len() > 0
            &&& other.opened.len() > 0
            &&& log.opened[0] != other.opened[0]
        }),
    ensures
        ({
            let log = simulate(first, None, first_events).1;
            let other = simulate(second, None, second_events).1;
            &&& !log.recorded.contains((other.opened[0], identity, version))
            &&& !other.recorded.contains((log.opened[0], identity, version))
        }),
{
    law_simulation_stays_in_its_database(first, None, first_events);
    law_simulation_stays_in_its_database(second, None, second_events);
}

/// Whether `event` is an answer to `action`.
pub open spec fn answers<B, D, V, P, X, E>(
    action: SimulationAction<'_, B, D, V, P>,
    event: SimulationEvent<B, D, V, P, X, E>,
) -> bool {
    match (action, event) {
        (SimulationAction::Finish, _) => false,
        (_, SimulationEvent::Failed { .. }) => true,
        (SimulationAction::OpenDatabase, SimulationEvent::DatabaseOpened { .. }) => true,
        (SimulationAction::GenerateOwner, SimulationEvent::OwnerGenerated { .. }) => true,
        (SimulationAction::GenerateSphere { .. }, SimulationEvent::SphereGenerated { .. }) => true,
        (SimulationAction::SphereIdentity { .. }, SimulationEvent::SphereIdentified { .. }) => true,
        (SimulationAction::SetVersion { .. }, SimulationEvent::VersionSet) => true,
        (SimulationAction::NewContext { .. }, SimulationEvent::ContextMade { .. }) => true,
        _ => false,
    }
}

/// There is nothing left to do exactly at the end.
/// An event has an effect exactly if it answers the action that was asked for.
/// An answer that the action failed ends the simulation with that error, and
/// no other answer ends it with an error.
pub proof fn law_simulation_goes_by_answers<B, D, V, P, X, E>(
    simulation: Simulation<B, D, V, P, X, E>,
    event: SimulationEvent<B, D, V, P, X, E>,
)
    ensures
        simulation.pending() is Finish <==> simulation.phase is Done || simulation.phase is Failed,
        simulation.phase_after(event) == simulation.phase <==> !answers(
            simulation.pending(),
            event,
        ),
        answers(simulation.pending(), event) ==> match event {
            SimulationEvent::Failed { error } => simulation.phase_after(event)
                == (SimulationPhase::Failed::<B, D, V, P, X, E> { error }),
            _ => simulation.phase_after(event) !is Failed,
        },
{
}

/// What is asked for, from the beginning to the end, where nothing fails. A
/// database is opened exactly if none is at hand. A sphere of the owner is
/// generated in the database, its version is recorded there under its own
/// identity, and the context is made of the two, with the proof of the sphere
/// exactly if write access was asked for. That context is the outcome.
pub proof fn law_simulation_takes_these_steps<B, D, V, P, X, E>(
    profile: SimulationAccess,
    db: Option<B>,
    opened: B,
    owner: D,
    version: V,
    proof_of_authority: P,
    identity: D,
    context: X,
)
    ensures
        ({
            let start = Simulation::<B, D, V, P, X, E>::start(profile, db);
            let used = if db is Some {
                db->0
            } else {
                opened
            };
            let open = if db is Some {
                start
            } else {
                Simulation {
                    profile,
                    phase: start.phase_after(SimulationEvent::DatabaseOpened { db: opened }),
                }
            };
            let owned = Simulation {
                profile,
                phase: open.phase_after(SimulationEvent::OwnerGenerated { owner }),
            };
            let generated = Simulation {
                profile,
                phase: owned.phase_after(
                    SimulationEvent::SphereGenerated { version, proof: proof_of_authority },
                ),
            };
            let identified = Simulation {
                profile,
                phase: generated.phase_after(SimulationEvent::SphereIdentified { identity }),
            };
            let recorded = Simulation {
                profile,
                phase: identified.phase_after(SimulationEvent::VersionSet),
            };
            &&& start.profile == profile
            &&& db is None ==> start.pending() is OpenDatabase
            &&& open.pending() is GenerateOwner
            &&& owned.pending() matches SimulationAction::GenerateSphere { db: within, owner: by }
                && *within == used && *by == owner
            &&& generated.pending() matches SimulationAction::SphereIdentity { version: of } && *of
                == version
            &&& identified.pending() matches SimulationAction::SetVersion {
                db: within,
                identity: of,
                version: at,
            } && *within == used && *of == identity && *at == version
            &&& recorded.pending() matches SimulationAction::NewContext {
                db: within,
                identity: of,
                authorization,
            } && {
                &&& *within == used
                &&& *of == identity
                &&& *authorization == (if profile == SimulationAccess::ReadWrite {
                    Some(proof_of_authority)
                } else {
                    None
                })
            }
            &&& recorded.phase_after(SimulationEvent::ContextMade { context })
                == (SimulationPhase::Done::<B, D, V, P, X, E> { context })
        }),
{
}

} // verus!
