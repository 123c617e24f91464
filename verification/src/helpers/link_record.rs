//! Link records: signed statements by which the owner of a sphere publishes
//! the address of its latest version.

use vstd::prelude::*;

verus! {

/// How long a link record stays valid after it is issued, in seconds.
pub const LINK_RECORD_LIFETIME: u64 = 120;

/// The name of the fact of a link record that holds the published address.
pub const LINK_FACT: &'static str = "link";

/// What a capability lets its holder do with a sphere.
#[derive(Clone, Copy, Debug, PartialEq, Eq, Structural)]
pub enum CapabilityAction {
    Publish,
}

/// Everything a link record claims, besides the key that signs it and the
/// proof that the key may do so.
pub struct LinkClaim<'a, D> {
    /// The sphere that the record is issued to.
    pub audience: &'a D,
    /// The sphere that the claimed capability is about.
    pub resource: &'a D,
    /// What the claimed capability allows.
    pub action: CapabilityAction,
    /// Seconds until the record expires.
    pub lifetime: u64,
    /// The published address, recorded as the fact [`LINK_FACT`].
    pub link: &'a String,
}

/// The claim by which the sphere `identity` publishes `link`.
pub open spec fn publishing<'a, D>(identity: &'a D, link: &'a String) -> LinkClaim<'a, D> {
    LinkClaim {
        audience: identity,
        resource: identity,
        action: CapabilityAction::Publish,
        lifetime: LINK_RECORD_LIFETIME,
        link,
    }
}

/// The claim by which a sphere publishes an address of its own.
pub fn publish_claim<'a, D>(identity: &'a D, link: &'a String) -> (claim: LinkClaim<'a, D>)
    ensures
        claim == publishing(identity, link),
        *claim.audience == *identity,
        *claim.resource == *identity,
        claim.action == CapabilityAction::Publish,
        claim.lifetime == 120,
        *claim.link == *link,
{
    LinkClaim {
        audience: identity,
        resource: identity,
        action: CapabilityAction::Publish,
        lifetime: LINK_RECORD_LIFETIME,
        link,
    }
}

/// Where the making of a link record stands. `D` is the type of identities,
/// `P` that of proofs of authority, `W` that of the tokens that such proofs
/// stand for, `R` that of link records, `L` that of addresses of records.
pub enum LinkRecordPhase<D, P, W, R, L, E> {
    /// A key is to be generated, and its identity told.
    GenerateOwner,
    /// A database that lives in memory is to be opened.
    OpenDatabase { owner: D },
    /// A sphere of `owner` is to be generated.
    GenerateSphere { owner: D },
    /// The token behind `proof` is to be looked up.
    ResolveProof { proof: P, link: String },
    /// The identity of the new sphere is to be looked up.
    SphereIdentity { witness: W, link: String },
    /// The link record is to be signed.
    Sign { witness: W, link: String, identity: D },
    /// The token behind the proof is to be stored.
    StoreProof { witness: W, identity: D, record: R },
    /// The link record is to be stored.
    StoreRecord { identity: D, record: R },
    /// The record is made and stored.
    Done { identity: D, record: R, address: L },
    /// A step did not succeed.
    Failed { error: E },
}

/// What has to be done next.
pub enum LinkRecordAction<'a, D, P, W, R> {
    /// Generate the key of an owner, and tell its identity.
    GenerateOwner,
    /// Open a database that lives in memory.
    OpenDatabase,
    /// Generate a sphere in the database.
    GenerateSphere { owner: &'a D },
    /// Look up the token behind `proof`.
    ResolveProof { proof: &'a P },
    /// Look up the identity of the sphere.
    SphereIdentity,
    /// Sign `claim` with the owner's key, with `witness` as the proof.
    Sign { claim: LinkClaim<'a, D>, witness: &'a W },
    /// Encode and store a token.
    StoreProof { witness: &'a W },
    /// Encode and store a link record.
    StoreRecord { record: &'a R },
    /// Nothing is left to do: see [`LinkRecordMaking::outcome`].
    Finish,
}

/// What came of an action.
pub enum LinkRecordEvent<D, P, W, R, L, E> {
    OwnerGenerated { owner: D },
    DatabaseOpened,
    /// A sphere was generated; `link` is the address of its first version.
    SphereGenerated { proof: P, link: String },
    ProofResolved { witness: W },
    SphereIdentified { identity: D },
    Signed { record: R },
    /// A token was stored under `address`.
    Stored { address: L },
    /// The action did not succeed.
    Failed { error: E },
}

/// The making of a valid link record of a sphere "in the distance".
pub struct LinkRecordMaking<D, P, W, R, L, E> {
    pub phase: LinkRecordPhase<D, P, W, R, L, E>,
}

/// Starts to make a valid link record. The record and its proof both end up
/// in a token store.
pub fn make_valid_link_record<D, P, W, R, L, E>() -> (making: LinkRecordMaking<D, P, W, R, L, E>)
    ensures
        making.phase == LinkRecordPhase::<D, P, W, R, L, E>::GenerateOwner,
{
    LinkRecordMaking { phase: LinkRecordPhase::GenerateOwner }
}

impl<D, P, W, R, L, E> LinkRecordMaking<D, P, W, R, L, E> {
    /// The phase that follows once the pending action has led to `event`; the
    /// same phase where `event` is no answer to that action.
    pub open spec fn phase_after(
        self,
        event: LinkRecordEvent<D, P, W, R, L, E>,
    ) -> LinkRecordPhase<D, P, W, R, L, E> {
        match (self.phase, event) {
            (LinkRecordPhase::GenerateOwner, LinkRecordEvent::OwnerGenerated { owner }) =>
                LinkRecordPhase::OpenDatabase { owner },
            (LinkRecordPhase::OpenDatabase { owner }, LinkRecordEvent::DatabaseOpened) =>
                LinkRecordPhase::GenerateSphere { owner },
            (LinkRecordPhase::GenerateSphere { .. }, LinkRecordEvent::SphereGenerated { proof, link }) =>
                LinkRecordPhase::ResolveProof { proof, link },
            (LinkRecordPhase::ResolveProof { link, .. }, LinkRecordEvent::ProofResolved { witness }) =>
                LinkRecordPhase::SphereIdentity { witness, link },
            (LinkRecordPhase::SphereIdentity { witness, link }, LinkRecordEvent::SphereIdentified { identity }) =>
                LinkRecordPhase::Sign { witness, link, identity },
            (LinkRecordPhase::Sign { witness, identity, .. }, LinkRecordEvent::Signed { record }) =>
                LinkRecordPhase::StoreProof { witness, identity, record },
            (LinkRecordPhase::StoreProof { identity, record, .. }, LinkRecordEvent::Stored { .. }) =>
                LinkRecordPhase::StoreRecord { identity, record },
            (LinkRecordPhase::StoreRecord { identity, record }, LinkRecordEvent::Stored { address }) =>
                LinkRecordPhase::Done { identity, record, address },
            (LinkRecordPhase::Done { .. }, _) => self.phase,
            (LinkRecordPhase::Failed { .. }, _) => self.phase,
            (_, LinkRecordEvent::Failed { error }) => LinkRecordPhase::Failed { error },
            _ => self.phase,
        }
    }

    /// What has to be done next.
    pub open spec fn pending(&self) -> LinkRecordAction<'_, D, P, W, R> {
        match &self.phase {
            LinkRecordPhase::GenerateOwner => LinkRecordAction::GenerateOwner,
            LinkRecordPhase::OpenDatabase { .. } => LinkRecordAction::OpenDatabase,
            LinkRecordPhase::GenerateSphere { owner } => LinkRecordAction::GenerateSphere { owner },
            LinkRecordPhase::ResolveProof { proof, .. } => LinkRecordAction::ResolveProof { proof },
            LinkRecordPhase::SphereIdentity { .. } => LinkRecordAction::SphereIdentity,
            LinkRecordPhase::Sign { witness, link, identity } => LinkRecordAction::Sign {
                claim: publishing(identity, link),
                witness,
            },
            LinkRecordPhase::StoreProof { witness, .. } => LinkRecordAction::StoreProof { witness },
            LinkRecordPhase::StoreRecord { record, .. } => LinkRecordAction::StoreRecord { record },
            LinkRecordPhase::Done { .. } => LinkRecordAction::Finish,
            LinkRecordPhase::Failed { .. } => LinkRecordAction::Finish,
        }
    }

    /// What has to be done next.
    pub fn action(&self) -> (action: LinkRecordAction<'_, D, P, W, R>)
        ensures
            action == self.pending(),
    {
        match &self.phase {
            LinkRecordPhase::GenerateOwner => LinkRecordAction::GenerateOwner,
            LinkRecordPhase::OpenDatabase { .. } => LinkRecordAction::OpenDatabase,
            LinkRecordPhase::GenerateSphere { owner } => LinkRecordAction::GenerateSphere { owner },
            LinkRecordPhase::ResolveProof { proof, .. } => LinkRecordAction::ResolveProof { proof },
            LinkRecordPhase::SphereIdentity { .. } => LinkRecordAction::SphereIdentity,
            LinkRecordPhase::Sign { witness, link, identity } => LinkRecordAction::Sign {
                claim: publish_claim(identity, link),
                witness,
            },
            LinkRecordPhase::StoreProof { witness, .. } => LinkRecordAction::StoreProof { witness },
            LinkRecordPhase::StoreRecord { record, .. } => LinkRecordAction::StoreRecord { record },
            LinkRecordPhase::Done { .. } => LinkRecordAction::Finish,
            LinkRecordPhase::Failed { .. } => LinkRecordAction::Finish,
        }
    }

    /// Takes in what came of the pending action. An event that is no answer
    /// to that action changes nothing.
    pub fn step(self, event: LinkRecordEvent<D, P, W, R, L, E>) -> (making: Self)
        ensures
            making.phase == self.phase_after(event),
    {
        let phase = match (self.phase, event) {
            (LinkRecordPhase::GenerateOwner, LinkRecordEvent::OwnerGenerated { owner }) =>
                LinkRecordPhase::OpenDatabase { owner },
            (LinkRecordPhase::OpenDatabase { owner }, LinkRecordEvent::DatabaseOpened) =>
                LinkRecordPhase::GenerateSphere { owner },
            (LinkRecordPhase::GenerateSphere { .. }, LinkRecordEvent::SphereGenerated { proof, link }) =>
                LinkRecordPhase::ResolveProof { proof, link },
            (LinkRecordPhase::ResolveProof { link, .. }, LinkRecordEvent::ProofResolved { witness }) =>
                LinkRecordPhase::SphereIdentity { witness, link },
            (LinkRecordPhase::SphereIdentity { witness, link }, LinkRecordEvent::SphereIdentified { identity }) =>
                LinkRecordPhase::Sign { witness, link, identity },
            (LinkRecordPhase::Sign { witness, identity, .. }, LinkRecordEvent::Signed { record }) =>
                LinkRecordPhase::StoreProof { witness, identity, record },
            (LinkRecordPhase::StoreProof { identity, record, .. }, LinkRecordEvent::Stored { .. }) =>
                LinkRecordPhase::StoreRecord { identity, record },
            (LinkRecordPhase::StoreRecord { identity, record }, LinkRecordEvent::Stored { address }) =>
                LinkRecordPhase::Done { identity, record, address },
            (LinkRecordPhase::Done { identity, record, address }, _) =>
                LinkRecordPhase::Done { identity, record, address },
            (LinkRecordPhase::Failed { error }, _) => LinkRecordPhase::Failed { error },
            (_, LinkRecordEvent::Failed { error }) => LinkRecordPhase::Failed { error },
            (phase, _) => phase,
        };
        LinkRecordMaking { phase }
    }

    /// The sphere, its link record and the address of the record, or the
    /// error that ended the making; `None` while it is under way.
    pub fn outcome(self) -> (outcome: Option<Result<(D, R, L), E>>)
        ensures
            match self.phase {
                LinkRecordPhase::Done { identity, record, address } => outcome == Some(
                    Ok::<(D, R, L), E>((identity, record, address)),
                ),
                LinkRecordPhase::Failed { error } => outcome == Some(Err::<(D, R, L), E>(error)),
                _ => outcome is None,
            },
    {
        match self.phase {
            LinkRecordPhase::Done { identity, record, address } => Some(Ok((identity, record, address))),
            LinkRecordPhase::Failed { error } => Some(Err(error)),
            _ => None,
        }
    }
}

/// What the making of a link record has brought about.
#[verifier::ext_equal]
pub struct LinkRecordLog<D, W, R, L> {
    /// The link records that were signed, each with the sphere that its claim
    /// is about and the token that proves the claim.
    pub signed: Seq<(D, W, R)>,
    /// The proofs that were stored, each with its address.
    pub proofs: Seq<(W, L)>,
    /// The link records that were stored, each with its address.
    pub records: Seq<(R, L)>,
}

/// The making of a link record from its start through `events`: where it
/// stands, and what it has brought about.
pub open spec fn make_through<D, P, W, R, L, E>(
    events: Seq<LinkRecordEvent<D, P, W, R, L, E>>,
) -> (LinkRecordMaking<D, P, W, R, L, E>, LinkRecordLog<D, W, R, L>)
    decreases events.len(),
{
    if events.len() == 0 {
        (
            LinkRecordMaking { phase: LinkRecordPhase::GenerateOwner },
            LinkRecordLog { signed: Seq::empty(), proofs: Seq::empty(), records: Seq::empty() },
        )
    } else {
        let (making, log) = make_through(events.drop_last());
        let event = events.last();
        (
            LinkRecordMaking { phase: making.phase_after(event) },
            match (making.pending(), event) {
                (LinkRecordAction::Sign { witness, claim }, LinkRecordEvent::Signed { record }) =>
                    LinkRecordLog {
                        signed: log.signed.push((*claim.audience, *witness, record)),
                        ..log
                    },
                (LinkRecordAction::StoreProof { witness }, LinkRecordEvent::Stored { address }) =>
                    LinkRecordLog { proofs: log.proofs.push((*witness, address)), ..log },
                (LinkRecordAction::StoreRecord { record }, LinkRecordEvent::Stored { address }) =>
                    LinkRecordLog { records: log.records.push((*record, address)), ..log },
                _ => log,
            },
        )
    }
}

/// How the log of an unfailed making looks in each phase.
spec fn log_fits<D, P, W, R, L, E>(
    phase: LinkRecordPhase<D, P, W, R, L, E>,
    log: LinkRecordLog<D, W, R, L>,
) -> bool {
    match phase {
        LinkRecordPhase::StoreProof { witness, identity, record } => {
            &&& log.signed == seq![(identity, witness, record)]
            &&& log.proofs == Seq::<(W, L)>::empty()
            &&& log.records == Seq::<(R, L)>::empty()
        },
        LinkRecordPhase::StoreRecord { identity, record } => {
            &&& log.proofs.len() == 1
            &&& log.signed == seq![(identity, log.proofs[0].0, record)]
            &&& log.records == Seq::<(R, L)>::empty()
        },
        LinkRecordPhase::Done { identity, record, address } => {
            &&& log.proofs.len() == 1
            &&& log.signed == seq![(identity, log.proofs[0].0, record)]
            &&& log.records == seq![(record, address)]
        },
        LinkRecordPhase::Failed { .. } => true,
        _ => {
            &&& log.signed == Seq::<(D, W, R)>::empty()
            &&& log.proofs == Seq::<(W, L)>::empty()
            &&& log.records == Seq::<(R, L)>::empty()
        },
    }
}

proof fn lemma_log_fits<D, P, W, R, L, E>(events: Seq<LinkRecordEvent<D, P, W, R, L, E>>)
    ensures
        log_fits(make_through(events).0.phase, make_through(events).1),
    decreases events.len(),
{
    if events.len() > 0 {
        lemma_log_fits(events.drop_last());
        let (before, earlier) = make_through(events.drop_last());
        let (making, log) = make_through(events);
        if before.phase is Sign {
            assert(earlier.signed.push(log.signed.last()) =~= seq![log.signed.last()]);
        }
        if before.phase is StoreProof {
            assert(earlier.proofs.push(log.proofs.last()) =~= seq![log.proofs.last()]);
        }
        if before.phase is StoreRecord {
            assert(earlier.records.push(log.records.last()) =~= seq![log.records.last()]);
        }
    }
}

/// A link record that is handed out was signed once, for the sphere that is
/// handed out with it. It is stored, once, under the address that is handed
/// out with it, and so is the proof that it was signed with.
pub proof fn law_record_and_proof_are_stored<D, P, W, R, L, E>(
    events: Seq<LinkRecordEvent<D, P, W, R, L, E>>,
)
    ensures
        ({
            let (making, log) = make_through(events);
            making.phase matches LinkRecordPhase::Done { identity, record, address } ==> {
                &&& log.records == seq![(record, address)]
                &&& log.proofs.len() == 1
                &&& log.signed == seq![(identity, log.proofs[0].0, record)]
            }
        }),
{
    lemma_log_fits(events);
}

/// Whether `event` is an answer to `action`.
pub open spec fn answers<D, P, W, R, L, E>(
    action: LinkRecordAction<'_, D, P, W, R>,
    event: LinkRecordEvent<D, P, W, R, L, E>,
) -> bool {
    match (action, event) {
        (LinkRecordAction::Finish, _) => false,
        (_, LinkRecordEvent::Failed { .. }) => true,
        (LinkRecordAction::GenerateOwner, LinkRecordEvent::OwnerGenerated { .. }) => true,
        (LinkRecordAction::OpenDatabase, LinkRecordEvent::DatabaseOpened) => true,
        (LinkRecordAction::GenerateSphere { .. }, LinkRecordEvent::SphereGenerated { .. }) => true,
        (LinkRecordAction::ResolveProof { .. }, LinkRecordEvent::ProofResolved { .. }) => true,
        (LinkRecordAction::SphereIdentity, LinkRecordEvent::SphereIdentified { .. }) => true,
        (LinkRecordAction::Sign { .. }, LinkRecordEvent::Signed { .. }) => true,
        (LinkRecordAction::StoreProof { .. }, LinkRecordEvent::Stored { .. }) => true,
        (LinkRecordAction::StoreRecord { .. }, LinkRecordEvent::Stored { .. }) => true,
        _ => false,
    }
}

/// There is nothing left to do exactly at the end.
/// An event has an effect exactly if it answers the action that was asked for.
/// An answer that the action failed ends the making with that error, and no
/// other answer ends it with an error.
pub proof fn law_making_goes_by_answers<D, P, W, R, L, E>(
    making: LinkRecordMaking<D, P, W, R, L, E>,
    event: LinkRecordEvent<D, P, W, R, L, E>,
)
    ensures
        making.pending() is Finish <==> making.phase is Done || making.phase is Failed,
        making.phase_after(event) == making.phase <==> !answers(making.pending(), event),
        answers(making.pending(), event) ==> match event {
            LinkRecordEvent::Failed { error } => making.phase_after(event)
                == (LinkRecordPhase::Failed::<D, P, W, R, L, E> { error }),
            _ => making.phase_after(event) !is Failed,
        },
{
}

/// What is asked for, from the beginning to the end, where nothing fails. A
/// sphere of the owner is generated and its proof resolved. Then a claim is
/// signed with that proof, by which the sphere publishes the address of its own
/// version, and proof and record are stored. The outcome is the sphere, the
/// record that was signed, and the address that the record was stored under.
pub proof fn law_making_takes_these_steps<D, P, W, R, L, E>(
    owner: D,
    proof_of_authority: P,
    link: String,
    witness: W,
    identity: D,
    record: R,
    proof_address: L,
    address: L,
)
    ensures
        ({
            let start = LinkRecordMaking::<D, P, W, R, L, E> {
                phase: LinkRecordPhase::GenerateOwner,
            };
            let owned = LinkRecordMaking {
                phase: start.phase_after(LinkRecordEvent::OwnerGenerated { owner }),
            };
            let open = LinkRecordMaking {
                phase: owned.phase_after(LinkRecordEvent::DatabaseOpened),
            };
            let generated = LinkRecordMaking {
                phase: open.phase_after(
                    LinkRecordEvent::SphereGenerated { proof: proof_of_authority, link },
                ),
            };
            let resolved = LinkRecordMaking {
                phase: generated.phase_after(LinkRecordEvent::ProofResolved { witness }),
            };
            let identified = LinkRecordMaking {
                phase: resolved.phase_after(LinkRecordEvent::SphereIdentified { identity }),
            };
            let signed = LinkRecordMaking {
                phase: identified.phase_after(LinkRecordEvent::Signed { record }),
            };
            let half = LinkRecordMaking {
                phase: signed.phase_after(LinkRecordEvent::Stored { address: proof_address }),
            };
            &&& start.pending() is GenerateOwner
            &&& owned.pending() is OpenDatabase
            &&& open.pending() matches LinkRecordAction::GenerateSphere { owner: by } && *by == owner
            &&& generated.pending() matches LinkRecordAction::ResolveProof { proof: of } && *of
                == proof_of_authority
            &&& resolved.pending() is SphereIdentity
            &&& identified.pending() matches LinkRecordAction::Sign { claim, witness: by } && {
                &&& *by == witness
                &&& *claim.audience == identity
                &&& *claim.resource == identity
                &&& claim.action == CapabilityAction::Publish
                &&& claim.lifetime == 120
                &&& *claim.link == link
            }
            &&& signed.pending() matches LinkRecordAction::StoreProof { witness: of } && *of
                == witness
            &&& half.pending() matches LinkRecordAction::StoreRecord { record: of } && *of == record
            &&& half.phase_after(LinkRecordEvent::Stored { address }) == (LinkRecordPhase::Done::<
                D,
                P,
                W,
                R,
                L,
                E,
            > { identity, record, address })
        }),
{
}

} // verus!
