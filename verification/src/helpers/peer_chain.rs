//! Building a chain of spheres in which each sphere keeps the next one in its
//! address book.
//!
//! The spheres are numbered: sphere `0` is the origin, and sphere `i + 1`
//! carries the name `names[i]`. All spheres are made first, each one but the
//! origin storing its own name. The chain is then linked from its far end
//! back to the origin, so that each published version already holds the rest
//! of the chain.

use vstd::prelude::*;

use super::link_record::{publish_claim, LinkClaim};
use super::simulation::SimulationAccess;
use crate::content::ContentKind;

verus! {

/// The slug under which a sphere stores its own name.
pub const NAME_SLUG: &'static str = "my-name";

/// Where the construction of a chain stands.
pub enum ChainPhase<D, V, R, E> {
    /// The origin sphere is to be made.
    Origin,
    /// The sphere called `names[peer]` is to be made.
    Create { peer: usize },
    /// That sphere is to store its name.
    WriteName { peer: usize },
    /// That sphere is to save the name it stored.
    SaveName { peer: usize },
    /// The identity of `sphere` is to be noted.
    Identity { sphere: usize },
    /// The version of the sphere after `sphere` is to be looked up.
    NextVersion { sphere: usize },
    /// The identity of the sphere after `sphere` is to be looked up.
    NextIdentity { sphere: usize, link: String },
    /// The sphere after `sphere` is to sign a link record.
    Sign { sphere: usize, link: String, audience: D },
    /// The name that the sphere after `sphere` stored is to be read.
    ReadName { sphere: usize, record: R },
    /// `sphere` is to take the next sphere into its address book.
    Adopt { sphere: usize, name: String, record: R },
    /// The identity of the sphere that has just adopted a peer is to be looked up.
    AdopterIdentity { sphere: usize },
    /// That sphere is to save its address book.
    SaveAdopter { sphere: usize, identity: D },
    /// The saved version is to be recorded as the latest.
    SetVersion { sphere: usize, identity: D, version: V },
    /// The chain stands.
    Done,
    /// An identity could not be had.
    Failed { error: E },
}

/// What has to be done next.
pub enum ChainAction<'a, D, V, R> {
    /// Simulate a sphere with a database of its own.
    CreateOrigin { access: SimulationAccess },
    /// Simulate the sphere `sphere` in the database of the origin.
    CreatePeer { access: SimulationAccess, sphere: usize },
    /// Store `name` in `sphere`, under `slug`.
    WriteName { sphere: usize, slug: &'a str, kind: ContentKind, name: &'a String },
    /// Save `sphere`.
    Save { sphere: usize },
    /// Look up the identity of `sphere`.
    Identity { sphere: usize },
    /// Look up the version of `sphere`.
    Version { sphere: usize },
    /// Sign `claim` with the key of the author of `sphere`, as its authorization allows.
    Sign { sphere: usize, claim: LinkClaim<'a, D> },
    /// Read what is stored in `sphere` under `slug`.
    ReadName { sphere: usize, slug: &'a str },
    /// Let `sphere` call the subject of `record` by `name`.
    Adopt { sphere: usize, name: &'a String, record: &'a R },
    /// Record `version` as the latest version of `identity`.
    SetVersion { identity: &'a D, version: &'a V },
    /// Nothing is left to do: see [`PeerChain::outcome`].
    Finish,
}

/// What came of an action.
pub enum ChainEvent<D, V, R, E> {
    Created,
    NameWritten,
    Saved { version: V },
    Identified { identity: D },
    Versioned { link: String },
    Signed { record: R },
    NameRead { name: String },
    Adopted,
    VersionSet,
    /// An identity could not be had.
    Failed { error: E },
}

/// The construction of a chain of spheres.
pub struct PeerChain<D, V, R, E> {
    /// The names of the spheres after the origin.
    pub names: Vec<String>,
    /// The identities noted so far, from the far end of the chain on.
    pub dids: Vec<D>,
    pub phase: ChainPhase<D, V, R, E>,
}

/// A construction, seen as a mathematical value.
#[verifier::ext_equal]
pub struct ChainState<D, V, R, E> {
    pub names: Seq<String>,
    pub dids: Seq<D>,
    pub phase: ChainPhase<D, V, R, E>,
}

impl<D, V, R, E> View for PeerChain<D, V, R, E> {
    type V = ChainState<D, V, R, E>;

    open spec fn view(&self) -> ChainState<D, V, R, E> {
        ChainState { names: self.names@, dids: self.dids@, phase: self.phase }
    }
}

impl<D, V, R, E> ChainState<D, V, R, E> {
    /// The start of a chain of one sphere more than there are `names`.
    pub open spec fn start(names: Seq<String>) -> Self {
        ChainState { names, dids: Seq::empty(), phase: ChainPhase::Origin }
    }

    /// Sphere numbers are those of the chain, and a sphere that is being
    /// linked has a next one.
    pub open spec fn wf(self) -> bool {
        let last = self.names.len();
        &&& last <= usize::MAX
        &&& match self.phase {
            ChainPhase::Create { peer } => peer < last,
            ChainPhase::WriteName { peer } => peer < last,
            ChainPhase::SaveName { peer } => peer < last,
            ChainPhase::Identity { sphere } => sphere <= last,
            ChainPhase::NextVersion { sphere } => sphere < last,
            ChainPhase::NextIdentity { sphere, .. } => sphere < last,
            ChainPhase::Sign { sphere, .. } => sphere < last,
            ChainPhase::ReadName { sphere, .. } => sphere < last,
            ChainPhase::Adopt { sphere, .. } => sphere < last,
            ChainPhase::AdopterIdentity { sphere } => sphere < last,
            ChainPhase::SaveAdopter { sphere, .. } => sphere < last,
            ChainPhase::SetVersion { sphere, .. } => sphere < last,
            _ => true,
        }
    }

    /// The phase in which `peer` is made, or the first of the linking phases
    /// when there is no such peer.
    pub open spec fn making(self, peer: int) -> ChainPhase<D, V, R, E> {
        if peer < self.names.len() {
            ChainPhase::Create { peer: peer as usize }
        } else {
            ChainPhase::Identity { sphere: self.names.len() as usize }
        }
    }

    /// The phase after `sphere` has been linked to the rest of the chain.
    pub open spec fn linked(sphere: int) -> ChainPhase<D, V, R, E> {
        if sphere == 0 {
            ChainPhase::Done
        } else {
            ChainPhase::Identity { sphere: (sphere - 1) as usize }
        }
    }

    /// The phase that follows once the pending action has led to `event`; the
    /// same phase where `event` is no answer to that action.
    pub open spec fn phase_after(self, event: ChainEvent<D, V, R, E>) -> ChainPhase<D, V, R, E> {
        match (self.phase, event) {
            (ChainPhase::Origin, ChainEvent::Created) => self.making(0),
            (ChainPhase::Create { peer }, ChainEvent::Created) => ChainPhase::WriteName { peer },
            (ChainPhase::WriteName { peer }, ChainEvent::NameWritten) => ChainPhase::SaveName { peer },
            (ChainPhase::SaveName { peer }, ChainEvent::Saved { .. }) => self.making(peer + 1),
            (ChainPhase::Identity { sphere }, ChainEvent::Identified { .. }) =>
                if sphere < self.names.len() {
                    ChainPhase::NextVersion { sphere }
                } else {
                    Self::linked(sphere as int)
                },
            (ChainPhase::NextVersion { sphere }, ChainEvent::Versioned { link }) =>
                ChainPhase::NextIdentity { sphere, link },
            (ChainPhase::NextIdentity { sphere, link }, ChainEvent::Identified { identity }) =>
                ChainPhase::Sign { sphere, link, audience: identity },
            (ChainPhase::Sign { sphere, .. }, ChainEvent::Signed { record }) =>
                ChainPhase::ReadName { sphere, record },
            (ChainPhase::ReadName { sphere, record }, ChainEvent::NameRead { name }) =>
                ChainPhase::Adopt { sphere, name, record },
            (ChainPhase::Adopt { sphere, .. }, ChainEvent::Adopted) =>
                ChainPhase::AdopterIdentity { sphere },
            (ChainPhase::AdopterIdentity { sphere }, ChainEvent::Identified { identity }) =>
                ChainPhase::SaveAdopter { sphere, identity },
            (ChainPhase::SaveAdopter { sphere, identity }, ChainEvent::Saved { version }) =>
                ChainPhase::SetVersion { sphere, identity, version },
            (ChainPhase::SetVersion { sphere, .. }, ChainEvent::VersionSet) => Self::linked(sphere as int),
            (ChainPhase::Identity { .. }, ChainEvent::Failed { error }) => ChainPhase::Failed { error },
            (ChainPhase::AdopterIdentity { .. }, ChainEvent::Failed { error }) =>
                ChainPhase::Failed { error },
            _ => self.phase,
        }
    }

    /// The construction after the pending action has led to `event`.
    pub open spec fn next(self, event: ChainEvent<D, V, R, E>) -> Self {
        ChainState {
            names: self.names,
            dids: match (self.phase, event) {
                (ChainPhase::Identity { .. }, ChainEvent::Identified { identity }) =>
                    self.dids.push(identity),
                _ => self.dids,
            },
            phase: self.phase_after(event),
        }
    }

    /// What has to be done next.
    pub open spec fn pending(&self) -> ChainAction<'_, D, V, R> {
        match &self.phase {
            ChainPhase::Origin => ChainAction::CreateOrigin { access: SimulationAccess::ReadWrite },
            ChainPhase::Create { peer } => ChainAction::CreatePeer {
                access: SimulationAccess::ReadWrite,
                sphere: (*peer + 1) as usize,
            },
            ChainPhase::WriteName { peer } => ChainAction::WriteName {
                sphere: (*peer + 1) as usize,
                slug: NAME_SLUG,
                kind: ContentKind::Subtext,
                name: &self.names[*peer as int],
            },
            ChainPhase::SaveName { peer } => ChainAction::Save { sphere: (*peer + 1) as usize },
            ChainPhase::Identity { sphere } => ChainAction::Identity { sphere: *sphere },
            ChainPhase::NextVersion { sphere } => ChainAction::Version { sphere: (*sphere + 1) as usize },
            ChainPhase::NextIdentity { sphere, .. } => ChainAction::Identity { sphere: (*sphere + 1) as usize },
            ChainPhase::Sign { sphere, link, audience } => ChainAction::Sign {
                sphere: (*sphere + 1) as usize,
                claim: super::link_record::publishing(audience, link),
            },
            ChainPhase::ReadName { sphere, .. } => ChainAction::ReadName {
                sphere: (*sphere + 1) as usize,
                slug: NAME_SLUG,
            },
            ChainPhase::Adopt { sphere, name, record } => ChainAction::Adopt { sphere: *sphere, name, record },
            ChainPhase::AdopterIdentity { sphere } => ChainAction::Identity { sphere: *sphere },
            ChainPhase::SaveAdopter { sphere, .. } => ChainAction::Save { sphere: *sphere },
            ChainPhase::SetVersion { identity, version, .. } => ChainAction::SetVersion { identity, version },
            ChainPhase::Done => ChainAction::Finish,
            ChainPhase::Failed { .. } => ChainAction::Finish,
        }
    }
}

/// Starts a chain of one sphere more than there are names in `peer_chain`.
pub fn make_sphere_context_with_peer_chain<D, V, R, E>(peer_chain: Vec<String>) -> (chain: PeerChain<
    D,
    V,
    R,
    E,
>)
    ensures
        chain@.wf(),
        chain@ == ChainState::<D, V, R, E>::start(peer_chain@),
{
    assert(peer_chain.len() == peer_chain@.len());
    PeerChain { names: peer_chain, dids: Vec::new(), phase: ChainPhase::Origin }
}

impl<D, V, R, E> PeerChain<D, V, R, E> {
    /// What has to be done next.
    pub fn action(&self) -> (action: ChainAction<'_, D, V, R>)
        requires
            self@.wf(),
        ensures
            action == self@.pending(),
    {
        match &self.phase {
            ChainPhase::Origin => ChainAction::CreateOrigin { access: SimulationAccess::ReadWrite },
            ChainPhase::Create { peer } => ChainAction::CreatePeer {
                access: SimulationAccess::ReadWrite,
                sphere: *peer + 1,
            },
            ChainPhase::WriteName { peer } => ChainAction::WriteName {
                sphere: *peer + 1,
                slug: NAME_SLUG,
                kind: ContentKind::Subtext,
                name: &self.names[*peer],
            },
            ChainPhase::SaveName { peer } => ChainAction::Save { sphere: *peer + 1 },
            ChainPhase::Identity { sphere } => ChainAction::Identity { sphere: *sphere },
            ChainPhase::NextVersion { sphere } => ChainAction::Version { sphere: *sphere + 1 },
            ChainPhase::NextIdentity { sphere, .. } => ChainAction::Identity { sphere: *sphere + 1 },
            ChainPhase::Sign { sphere, link, audience } => ChainAction::Sign {
                sphere: *sphere + 1,
                claim: publish_claim(audience, link),
            },
            ChainPhase::ReadName { sphere, .. } => ChainAction::ReadName { sphere: *sphere + 1, slug: NAME_SLUG },
            ChainPhase::Adopt { sphere, name, record } => ChainAction::Adopt { sphere: *sphere, name, record },
            ChainPhase::AdopterIdentity { sphere } => ChainAction::Identity { sphere: *sphere },
            ChainPhase::SaveAdopter { sphere, .. } => ChainAction::Save { sphere: *sphere },
            ChainPhase::SetVersion { identity, version, .. } => ChainAction::SetVersion { identity, version },
            ChainPhase::Done => ChainAction::Finish,
            ChainPhase::Failed { .. } => ChainAction::Finish,
        }
    }

    /// The identities of the spheres of a finished chain, from its far end to
    /// the origin, or the error that ended the construction; `None` while it
    /// is under way.
    pub fn outcome(self) -> (outcome: Option<Result<Vec<D>, E>>)
        ensures
            match self.phase {
                ChainPhase::Done => outcome == Some(Ok::<Vec<D>, E>(self.dids)),
                ChainPhase::Failed { error } => outcome == Some(Err::<Vec<D>, E>(error)),
                _ => outcome is None,
            },
    {
        match self.phase {
            ChainPhase::Done => Some(Ok(self.dids)),
            ChainPhase::Failed { error } => Some(Err(error)),
            _ => None,
        }
    }

    fn make(last: usize, peer: usize) -> (phase: ChainPhase<D, V, R, E>)
        ensures
            forall|state: ChainState<D, V, R, E>|
                state.names.len() == last ==> phase == #[trigger] state.making(peer as int),
    {
        if peer < last {
            ChainPhase::Create { peer }
        } else {
            ChainPhase::Identity { sphere: last }
        }
    }

    fn link(sphere: usize) -> (phase: ChainPhase<D, V, R, E>)
        ensures
            phase == ChainState::<D, V, R, E>::linked(sphere as int),
    {
        if sphere == 0 {
            ChainPhase::Done
        } else {
            ChainPhase::Identity { sphere: sphere - 1 }
        }
    }

    /// Takes in what came of the pending action. An event that is no answer
    /// to that action changes nothing.
    pub fn step(self, event: ChainEvent<D, V, R, E>) -> (chain: Self)
        requires
            self@.wf(),
        ensures
            chain@.wf(),
            chain@ == self@.next(event),
    {
        let PeerChain { names, mut dids, phase } = self;
        let last: usize = names.len();
        let phase = match (phase, event) {
            (ChainPhase::Origin, ChainEvent::Created) => Self::make(last, 0),
            (ChainPhase::Create { peer }, ChainEvent::Created) => ChainPhase::WriteName { peer },
            (ChainPhase::WriteName { peer }, ChainEvent::NameWritten) => ChainPhase::SaveName { peer },
            (ChainPhase::SaveName { peer }, ChainEvent::Saved { .. }) => Self::make(last, peer + 1),
            (ChainPhase::Identity { sphere }, ChainEvent::Identified { identity }) => {
                dids.push(identity);
                if sphere < last {
                    ChainPhase::NextVersion { sphere }
                } else {
                    Self::link(sphere)
                }
            },
            (ChainPhase::NextVersion { sphere }, ChainEvent::Versioned { link }) =>
                ChainPhase::NextIdentity { sphere, link },
            (ChainPhase::NextIdentity { sphere, link }, ChainEvent::Identified { identity }) =>
                ChainPhase::Sign { sphere, link, audience: identity },
            (ChainPhase::Sign { sphere, .. }, ChainEvent::Signed { record }) =>
                ChainPhase::ReadName { sphere, record },
            (ChainPhase::ReadName { sphere, record }, ChainEvent::NameRead { name }) =>
                ChainPhase::Adopt { sphere, name, record },
            (ChainPhase::Adopt { sphere, .. }, ChainEvent::Adopted) =>
                ChainPhase::AdopterIdentity { sphere },
            (ChainPhase::AdopterIdentity { sphere }, ChainEvent::Identified { identity }) =>
                ChainPhase::SaveAdopter { sphere, identity },
            (ChainPhase::SaveAdopter { sphere, identity }, ChainEvent::Saved { version }) =>
                ChainPhase::SetVersion { sphere, identity, version },
            (ChainPhase::SetVersion { sphere, .. }, ChainEvent::VersionSet) => Self::link(sphere),
            (ChainPhase::Identity { .. }, ChainEvent::Failed { error }) => ChainPhase::Failed { error },
            (ChainPhase::AdopterIdentity { .. }, ChainEvent::Failed { error }) =>
                ChainPhase::Failed { error },
            (phase, _) => phase,
        };
        PeerChain { names, dids, phase }
    }
}

} // verus!
