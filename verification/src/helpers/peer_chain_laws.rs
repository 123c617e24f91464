//! What the construction of a chain of spheres leads to.

use vstd::prelude::*;

use super::link_record::CapabilityAction;
use super::peer_chain::{ChainAction, ChainEvent, ChainPhase, ChainState};
use super::simulation::SimulationAccess;
use crate::content::ContentKind;

verus! {

/// A sphere that was taken into an address book.
#[verifier::ext_equal]
pub struct Adoption<R> {
    /// The sphere that keeps the address book.
    pub sphere: int,
    /// What it calls the other sphere.
    pub name: String,
    /// The link record of the other sphere.
    pub record: R,
}

/// The construction over `names` after the first `count` of `events`.
pub open spec fn chain_at<D, V, R, E>(
    names: Seq<String>,
    events: Seq<ChainEvent<D, V, R, E>>,
    count: nat,
) -> ChainState<D, V, R, E>
    decreases count,
{
    if count == 0 {
        ChainState::start(names)
    } else {
        chain_at(names, events, (count - 1) as nat).next(events[count - 1])
    }
}

/// How often `sphere` is saved when the pending action of `state` leads to
/// `event`.
pub open spec fn saved_by<D, V, R, E>(
    state: ChainState<D, V, R, E>,
    event: ChainEvent<D, V, R, E>,
    sphere: int,
) -> nat {
    match (state.pending(), event) {
        (ChainAction::Save { sphere: saved }, ChainEvent::Saved { .. }) => if saved == sphere {
            1
        } else {
            0
        },
        _ => 0,
    }
}

/// How often the first `count` of `events` have saved `sphere`.
pub open spec fn saves<D, V, R, E>(
    names: Seq<String>,
    events: Seq<ChainEvent<D, V, R, E>>,
    count: nat,
    sphere: int,
) -> nat
    decreases count,
{
    if count == 0 {
        0
    } else {
        saves(names, events, (count - 1) as nat, sphere) + saved_by(
            chain_at(names, events, (count - 1) as nat),
            events[count - 1],
            sphere,
        )
    }
}

/// What `sphere` has stored under a slug once the pending action of `state` has
/// led to `event`, if it had stored `before`: the slug, the kind and the text.
pub open spec fn stored_by<D, V, R, E>(
    state: ChainState<D, V, R, E>,
    event: ChainEvent<D, V, R, E>,
    sphere: int,
    before: Option<(Seq<char>, ContentKind, String)>,
) -> Option<(Seq<char>, ContentKind, String)> {
    match (state.pending(), event) {
        (
            ChainAction::WriteName { sphere: writer, slug, kind, name },
            ChainEvent::NameWritten,
        ) => if writer == sphere {
            Some((slug@, kind, *name))
        } else {
            before
        },
        _ => before,
    }
}

/// What `sphere` has stored after the first `count` of `events`.
pub open spec fn stored<D, V, R, E>(
    names: Seq<String>,
    events: Seq<ChainEvent<D, V, R, E>>,
    count: nat,
    sphere: int,
) -> Option<(Seq<char>, ContentKind, String)>
    decreases count,
{
    if count == 0 {
        None
    } else {
        stored_by(
            chain_at(names, events, (count - 1) as nat),
            events[count - 1],
            sphere,
            stored(names, events, (count - 1) as nat, sphere),
        )
    }
}

/// The spheres that the first `count` of `events` made, in order, each with the
/// access of its author.
pub open spec fn creations<D, V, R, E>(
    names: Seq<String>,
    events: Seq<ChainEvent<D, V, R, E>>,
    count: nat,
) -> Seq<(int, SimulationAccess)>
    decreases count,
{
    if count == 0 {
        Seq::empty()
    } else {
        let before = creations(names, events, (count - 1) as nat);
        match (chain_at(names, events, (count - 1) as nat).pending(), events[count - 1]) {
            (ChainAction::CreateOrigin { access }, ChainEvent::Created) => before.push((0, access)),
            (ChainAction::CreatePeer { access, sphere }, ChainEvent::Created) => before.push(
                (sphere as int, access),
            ),
            _ => before,
        }
    }
}

/// `event` is a successful answer to what `state` asks for, in a world where
/// `identity` tells the identities of the spheres, `saving` the versions that
/// saving them gives and `version` the addresses of those, both by how often a
/// sphere has been saved, and `record` the link
/// record that the author of a sphere signs to publish an address for an
/// identity, and where a sphere reads back what it stored. `saved` tells how
/// often each sphere has been saved so far, and `stored` what it has stored.
pub open spec fn answers<D, V, R, E>(
    state: ChainState<D, V, R, E>,
    event: ChainEvent<D, V, R, E>,
    identity: spec_fn(int) -> D,
    saving: spec_fn(int, nat) -> V,
    version: spec_fn(int, nat) -> String,
    record: spec_fn(int, D, String) -> R,
    saved: spec_fn(int) -> nat,
    stored: spec_fn(int) -> Option<(Seq<char>, ContentKind, String)>,
) -> bool {
    match (state.pending(), event) {
        (ChainAction::CreateOrigin { .. }, ChainEvent::Created) => true,
        (ChainAction::CreatePeer { .. }, ChainEvent::Created) => true,
        (ChainAction::WriteName { .. }, ChainEvent::NameWritten) => true,
        (ChainAction::Save { sphere }, ChainEvent::Saved { version: found }) =>
            found == saving(sphere as int, saved(sphere as int) + 1),
        (ChainAction::Identity { sphere }, ChainEvent::Identified { identity: found }) =>
            found == identity(sphere as int),
        (ChainAction::Version { sphere }, ChainEvent::Versioned { link }) =>
            link == version(sphere as int, saved(sphere as int)),
        (ChainAction::Sign { sphere, claim }, ChainEvent::Signed { record: signed }) =>
            signed == record(sphere as int, *claim.audience, *claim.link),
        (ChainAction::ReadName { sphere, slug }, ChainEvent::NameRead { name }) =>
            stored(sphere as int) matches Some((at, kind, text)) ==> (at == slug@ ==> name == text),
        (ChainAction::Adopt { .. }, ChainEvent::Adopted) => true,
        (ChainAction::SetVersion { .. }, ChainEvent::VersionSet) => true,
        _ => false,
    }
}

/// The event at place `i` is a successful answer.
pub open spec fn answers_at<D, V, R, E>(
    names: Seq<String>,
    events: Seq<ChainEvent<D, V, R, E>>,
    identity: spec_fn(int) -> D,
    saving: spec_fn(int, nat) -> V,
    version: spec_fn(int, nat) -> String,
    record: spec_fn(int, D, String) -> R,
    i: nat,
) -> bool {
    answers(
        chain_at(names, events, i),
        events[i as int],
        identity,
        saving,
        version,
        record,
        |sphere: int| saves(names, events, i, sphere),
        |sphere: int| stored(names, events, i, sphere),
    )
}

/// Every one of `events` is a successful answer in turn.
pub open spec fn succeeds<D, V, R, E>(
    names: Seq<String>,
    events: Seq<ChainEvent<D, V, R, E>>,
    identity: spec_fn(int) -> D,
    saving: spec_fn(int, nat) -> V,
    version: spec_fn(int, nat) -> String,
    record: spec_fn(int, D, String) -> R,
) -> bool {
    forall|i: nat| i < events.len() ==> #[trigger] answers_at(names, events, identity, saving, version, record, i)
}

/// The adoptions that the first `count` of `events` completed, in order.
pub open spec fn adoptions<D, V, R, E>(
    names: Seq<String>,
    events: Seq<ChainEvent<D, V, R, E>>,
    count: nat,
) -> Seq<Adoption<R>>
    decreases count,
{
    if count == 0 {
        Seq::empty()
    } else {
        let before = adoptions(names, events, (count - 1) as nat);
        match (chain_at(names, events, (count - 1) as nat).pending(), events[count - 1]) {
            (ChainAction::Adopt { sphere, name, record }, ChainEvent::Adopted) =>
                before.push(Adoption { sphere: sphere as int, name: *name, record: *record }),
            _ => before,
        }
    }
}

/// The versions that the first `count` of `events` recorded as the latest of
/// an identity, in order.
pub open spec fn recordings<D, V, R, E>(
    names: Seq<String>,
    events: Seq<ChainEvent<D, V, R, E>>,
    count: nat,
) -> Seq<(D, V)>
    decreases count,
{
    if count == 0 {
        Seq::empty()
    } else {
        let before = recordings(names, events, (count - 1) as nat);
        match (chain_at(names, events, (count - 1) as nat).pending(), events[count - 1]) {
            (ChainAction::SetVersion { identity, version }, ChainEvent::VersionSet) =>
                before.push((*identity, *version)),
            _ => before,
        }
    }
}

/// The number of events that complete a chain over `names`.
pub open spec fn chain_length(names: Seq<String>) -> nat {
    12 * names.len() + 2
}

/// The first `count` spheres, each with an author who may write.
pub open spec fn first_spheres(count: nat) -> Seq<(int, SimulationAccess)> {
    Seq::new(count, |i: int| (i, SimulationAccess::ReadWrite))
}

/// The identities of the last `count` spheres, from the far end of the chain.
pub open spec fn far_identities<D>(last: int, identity: spec_fn(int) -> D, count: nat) -> Seq<D> {
    Seq::new(count, |j: int| identity(last - j))
}

/// The adoptions by the last `count` spheres but the very last, from the far
/// end of the chain: each sphere takes in the one after it.
pub open spec fn far_adoptions<D, R>(
    names: Seq<String>,
    identity: spec_fn(int) -> D,
    version: spec_fn(int, nat) -> String,
    record: spec_fn(int, D, String) -> R,
    count: nat,
) -> Seq<Adoption<R>> {
    Seq::new(
        count,
        |j: int|
            Adoption {
                sphere: names.len() - 1 - j,
                name: names[names.len() - 1 - j],
                record: final_record(names, identity, version, record, names.len() - j),
            },
    )
}

/// What is recorded for the last `count` spheres but the very last, from the
/// far end of the chain: the version that the last save of each gives.
pub open spec fn far_recordings<D, V>(
    names: Seq<String>,
    identity: spec_fn(int) -> D,
    saving: spec_fn(int, nat) -> V,
    count: nat,
) -> Seq<(D, V)> {
    Seq::new(
        count,
        |j: int|
            {
                let sphere = names.len() - 1 - j;
                (identity(sphere), saving(sphere, final_saves(names, sphere)))
            },
    )
}

/// How often `sphere` is saved in all: once for its name if it is not the
/// origin, and once for its address book if it is not the last.
pub open spec fn final_saves(names: Seq<String>, sphere: int) -> nat {
    (if 1 <= sphere <= names.len() {
        1nat
    } else {
        0nat
    }) + (if 0 <= sphere < names.len() {
        1nat
    } else {
        0nat
    })
}

/// The link record by which `sphere` publishes its final version.
pub open spec fn final_record<D, R>(
    names: Seq<String>,
    identity: spec_fn(int) -> D,
    version: spec_fn(int, nat) -> String,
    record: spec_fn(int, D, String) -> R,
    sphere: int,
) -> R {
    record(sphere, identity(sphere), version(sphere, final_saves(names, sphere)))
}

proof fn lemma_making<D, V, R, E>(
    names: Seq<String>,
    events: Seq<ChainEvent<D, V, R, E>>,
    identity: spec_fn(int) -> D,
    saving: spec_fn(int, nat) -> V,
    version: spec_fn(int, nat) -> String,
    record: spec_fn(int, D, String) -> R,
    peers: nat,
)
    requires
        names.len() <= usize::MAX,
        peers <= names.len(),
        succeeds(names, events, identity, saving, version, record),
        events.len() >= chain_length(names),
    ensures
        chain_at(names, events, 1 + 3 * peers) == (ChainState::<D, V, R, E> {
            names,
            dids: Seq::empty(),
            phase: ChainState::<D, V, R, E>::start(names).making(peers as int),
        }),
        adoptions(names, events, 1 + 3 * peers) == Seq::<Adoption<R>>::empty(),
        recordings(names, events, 1 + 3 * peers) == Seq::<(D, V)>::empty(),
        creations(names, events, 1 + 3 * peers) == first_spheres(peers + 1),
        forall|sphere: int|
            1 <= sphere <= peers ==> #[trigger] stored(names, events, 1 + 3 * peers, sphere) == Some(
                ("my-name"@, ContentKind::Subtext, names[sphere - 1]),
            ),
        forall|sphere: int| #[trigger]
            saves(names, events, 1 + 3 * peers, sphere) == (if 1 <= sphere <= peers {
                1nat
            } else {
                0nat
            }),
    decreases peers,
{
    if peers == 0 {
        lemma_step(names, events, identity, saving, version, record, 0);
        assert(creations(names, events, 1) =~= first_spheres(1));
    } else {
        let i = (1 + 3 * (peers - 1)) as nat;
        lemma_making(names, events, identity, saving, version, record, (peers - 1) as nat);
        lemma_step(names, events, identity, saving, version, record, i);
        assert(chain_at(names, events, i + 1).phase is WriteName);
        lemma_step(names, events, identity, saving, version, record, i + 1);
        assert(chain_at(names, events, i + 2).phase is SaveName);
        lemma_step(names, events, identity, saving, version, record, i + 2);
        assert(creations(names, events, i + 3) =~= first_spheres(peers + 1));
    }
}

/// One event takes the construction one step further.
proof fn lemma_step<D, V, R, E>(
    names: Seq<String>,
    events: Seq<ChainEvent<D, V, R, E>>,
    identity: spec_fn(int) -> D,
    saving: spec_fn(int, nat) -> V,
    version: spec_fn(int, nat) -> String,
    record: spec_fn(int, D, String) -> R,
    i: nat,
)
    requires
        succeeds(names, events, identity, saving, version, record),
        i < events.len(),
    ensures
        answers(
            chain_at(names, events, i),
            events[i as int],
            identity,
            saving,
            version,
            record,
            |sphere: int| saves(names, events, i, sphere),
            |sphere: int| stored(names, events, i, sphere),
        ),
        forall|sphere: int| #[trigger]
            stored(names, events, i + 1, sphere) == stored_by(
                chain_at(names, events, i),
                events[i as int],
                sphere,
                stored(names, events, i, sphere),
            ),
        creations(names, events, i + 1) == (match (
            chain_at(names, events, i).pending(),
            events[i as int],
        ) {
            (ChainAction::CreateOrigin { access }, ChainEvent::Created) => creations(
                names,
                events,
                i,
            ).push((0, access)),
            (ChainAction::CreatePeer { access, sphere }, ChainEvent::Created) => creations(
                names,
                events,
                i,
            ).push((sphere as int, access)),
            _ => creations(names, events, i),
        }),
        forall|sphere: int| #[trigger]
            saves(names, events, i + 1, sphere) == saves(names, events, i, sphere) + saved_by(
                chain_at(names, events, i),
                events[i as int],
                sphere,
            ),
        chain_at(names, events, i + 1) == chain_at(names, events, i).next(events[i as int]),
        adoptions(names, events, i + 1) == (match (chain_at(names, events, i).pending(), events[i as int]) {
            (ChainAction::Adopt { sphere, name, record }, ChainEvent::Adopted) =>
                adoptions(names, events, i).push(
                    Adoption { sphere: sphere as int, name: *name, record: *record },
                ),
            _ => adoptions(names, events, i),
        }),
        recordings(names, events, i + 1) == (match (chain_at(names, events, i).pending(), events[i as int]) {
            (ChainAction::SetVersion { identity, version }, ChainEvent::VersionSet) =>
                recordings(names, events, i).push((*identity, *version)),
            _ => recordings(names, events, i),
        }),
{
    assert(answers_at(names, events, identity, saving, version, record, i));
}

/// Nine events link a sphere to the rest of the chain.
proof fn lemma_link_one<D, V, R, E>(
    names: Seq<String>,
    events: Seq<ChainEvent<D, V, R, E>>,
    identity: spec_fn(int) -> D,
    saving: spec_fn(int, nat) -> V,
    version: spec_fn(int, nat) -> String,
    record: spec_fn(int, D, String) -> R,
    i: nat,
    sphere: usize,
    signed: R,
)
    requires
        signed == record(
            sphere + 1,
            identity(sphere + 1),
            version(sphere + 1, saves(names, events, i, sphere + 1)),
        ),
        names.len() <= usize::MAX,
        sphere < names.len(),
        succeeds(names, events, identity, saving, version, record),
        i + 9 <= events.len(),
        chain_at(names, events, i).names == names,
        chain_at(names, events, i).phase == (ChainPhase::<D, V, R, E>::Identity { sphere }),
        stored(names, events, i, sphere + 1) == Some(
            ("my-name"@, ContentKind::Subtext, names[sphere as int]),
        ),
    ensures
        creations(names, events, i + 9) == creations(names, events, i),
        forall|s: int| #[trigger]
            stored(names, events, i + 9, s) == stored(names, events, i, s),
        chain_at(names, events, i + 9) == (ChainState::<D, V, R, E> {
            names,
            dids: chain_at(names, events, i).dids.push(identity(sphere as int)),
            phase: ChainState::<D, V, R, E>::linked(sphere as int),
        }),
        adoptions(names, events, i + 9) == adoptions(names, events, i).push(
            Adoption {
                sphere: sphere as int,
                name: names[sphere as int],
                record: signed,
            },
        ),
        recordings(names, events, i + 9) == recordings(names, events, i).push(
            (
                identity(sphere as int),
                saving(sphere as int, saves(names, events, i, sphere as int) + 1),
            ),
        ),
        forall|s: int| #[trigger]
            saves(names, events, i + 9, s) == saves(names, events, i, s) + (if s == sphere {
                1nat
            } else {
                0nat
            }),
{
    lemma_step(names, events, identity, saving, version, record, i);
    assert(chain_at(names, events, i + 1).phase == ChainPhase::<D, V, R, E>::NextVersion { sphere });
    lemma_step(names, events, identity, saving, version, record, i + 1);
    assert(chain_at(names, events, i + 2).phase is NextIdentity);
    lemma_step(names, events, identity, saving, version, record, i + 2);
    assert(chain_at(names, events, i + 3).phase is Sign);
    lemma_step(names, events, identity, saving, version, record, i + 3);
    assert(chain_at(names, events, i + 4).phase == ChainPhase::<D, V, R, E>::ReadName {
        sphere,
        record: signed,
    });
    lemma_step(names, events, identity, saving, version, record, i + 4);
    assert(chain_at(names, events, i + 5).phase == ChainPhase::<D, V, R, E>::Adopt {
        sphere,
        name: names[sphere as int],
        record: signed,
    });
    lemma_step(names, events, identity, saving, version, record, i + 5);
    assert(chain_at(names, events, i + 6).phase == ChainPhase::<D, V, R, E>::AdopterIdentity { sphere });
    lemma_step(names, events, identity, saving, version, record, i + 6);
    assert(chain_at(names, events, i + 7).phase is SaveAdopter);
    lemma_step(names, events, identity, saving, version, record, i + 7);
    assert(chain_at(names, events, i + 8).phase == ChainPhase::<D, V, R, E>::SetVersion {
        sphere,
        identity: identity(sphere as int),
        version: saving(sphere as int, saves(names, events, i, sphere as int) + 1),
    });
    lemma_step(names, events, identity, saving, version, record, i + 8);
}

proof fn lemma_linking<D, V, R, E>(
    names: Seq<String>,
    events: Seq<ChainEvent<D, V, R, E>>,
    identity: spec_fn(int) -> D,
    saving: spec_fn(int, nat) -> V,
    version: spec_fn(int, nat) -> String,
    record: spec_fn(int, D, String) -> R,
    linked: nat,
)
    requires
        names.len() <= usize::MAX,
        linked <= names.len(),
        succeeds(names, events, identity, saving, version, record),
        events.len() >= chain_length(names),
    ensures
        chain_at(names, events, 3 * names.len() + 2 + 9 * linked) == (ChainState::<D, V, R, E> {
            names,
            dids: far_identities(names.len() as int, identity, linked + 1),
            phase: ChainState::<D, V, R, E>::linked(names.len() - linked),
        }),
        adoptions(names, events, 3 * names.len() + 2 + 9 * linked) == far_adoptions(
            names,
            identity,
            version,
            record,
            linked,
        ),
        recordings(names, events, 3 * names.len() + 2 + 9 * linked) == far_recordings(
            names,
            identity,
            saving,
            linked,
        ),
        creations(names, events, 3 * names.len() + 2 + 9 * linked) == first_spheres(
            names.len() + 1,
        ),
        forall|sphere: int|
            1 <= sphere <= names.len() ==> #[trigger] stored(
                names,
                events,
                3 * names.len() + 2 + 9 * linked,
                sphere,
            ) == Some(("my-name"@, ContentKind::Subtext, names[sphere - 1])),
        forall|sphere: int| #[trigger]
            saves(names, events, 3 * names.len() + 2 + 9 * linked, sphere) == (if 1 <= sphere
                <= names.len() {
                1nat
            } else {
                0nat
            }) + (if names.len() - linked <= sphere < names.len() {
                1nat
            } else {
                0nat
            }),
    decreases linked,
{
    if linked == 0 {
        let i = 1 + 3 * names.len();
        lemma_making(names, events, identity, saving, version, record, names.len());
        lemma_step(names, events, identity, saving, version, record, i);
        assert(chain_at(names, events, i + 1).dids =~= far_identities(names.len() as int, identity, 1));
        assert(adoptions(names, events, i + 1) =~= far_adoptions(names, identity, version, record, 0));
        assert(recordings(names, events, i + 1) =~= far_recordings(names, identity, saving, 0));
    } else {
        let i = (3 * names.len() + 2 + 9 * (linked - 1)) as nat;
        lemma_linking(names, events, identity, saving, version, record, (linked - 1) as nat);
        let sphere = names.len() - linked;
        assert(saves(names, events, i, sphere + 1) == final_saves(names, sphere + 1));
        assert(saves(names, events, i, sphere) + 1 == final_saves(names, sphere));
        lemma_link_one(
            names,
            events,
            identity,
            saving,
            version,
            record,
            i,
            sphere as usize,
            final_record(names, identity, version, record, sphere + 1),
        );
        assert(chain_at(names, events, i + 9).dids =~= far_identities(
            names.len() as int,
            identity,
            linked + 1,
        ));
        assert(adoptions(names, events, i + 9) =~= far_adoptions(names, identity, version, record, linked));
        assert(recordings(names, events, i + 9) =~= far_recordings(names, identity, saving, linked));
    }
}

/// A chain in whose construction nothing fails is complete after
/// [`chain_length`] events. It then hands out the identities of all spheres,
/// the last sphere first and the origin last.
pub proof fn law_chain_lists_every_sphere<D, V, R, E>(
    names: Seq<String>,
    events: Seq<ChainEvent<D, V, R, E>>,
    identity: spec_fn(int) -> D,
    saving: spec_fn(int, nat) -> V,
    version: spec_fn(int, nat) -> String,
    record: spec_fn(int, D, String) -> R,
)
    requires
        names.len() <= usize::MAX,
        succeeds(names, events, identity, saving, version, record),
        events.len() == chain_length(names),
    ensures
        chain_at(names, events, chain_length(names)).phase == ChainPhase::<D, V, R, E>::Done,
        chain_at(names, events, chain_length(names)).dids == Seq::new(
            names.len() + 1,
            |j: int| identity(names.len() - j),
        ),
{
    lemma_linking(names, events, identity, saving, version, record, names.len());
}

/// In a complete chain every sphere but the last has the next sphere in its
/// address book, exactly once, under the name of that sphere and with a link
/// record. The author of the next sphere signed that record, for the identity
/// of that sphere, to publish its final version: it is not saved again.
pub proof fn law_chain_adopts_next_sphere<D, V, R, E>(
    names: Seq<String>,
    events: Seq<ChainEvent<D, V, R, E>>,
    identity: spec_fn(int) -> D,
    saving: spec_fn(int, nat) -> V,
    version: spec_fn(int, nat) -> String,
    record: spec_fn(int, D, String) -> R,
)
    requires
        names.len() <= usize::MAX,
        succeeds(names, events, identity, saving, version, record),
        events.len() == chain_length(names),
    ensures
        adoptions(names, events, chain_length(names)) == Seq::new(
            names.len(),
            |j: int|
                Adoption {
                    sphere: names.len() - 1 - j,
                    name: names[names.len() - 1 - j],
                    record: record(
                        names.len() - j,
                        identity(names.len() - j),
                        version(
                            names.len() - j,
                            saves(names, events, chain_length(names), names.len() - j),
                        ),
                    ),
                },
        ),
{
    lemma_linking(names, events, identity, saving, version, record, names.len());
    assert forall|j: int| 0 <= j < names.len() implies final_saves(names, names.len() - j)
        == #[trigger] saves(names, events, chain_length(names), names.len() - j) by {}
}

/// In a complete chain the version that was recorded as the latest of each
/// sphere but the last is the one that its last save gave. It is recorded under
/// the identity of that sphere, once, and nothing else is recorded.
pub proof fn law_chain_records_final_versions<D, V, R, E>(
    names: Seq<String>,
    events: Seq<ChainEvent<D, V, R, E>>,
    identity: spec_fn(int) -> D,
    saving: spec_fn(int, nat) -> V,
    version: spec_fn(int, nat) -> String,
    record: spec_fn(int, D, String) -> R,
)
    requires
        names.len() <= usize::MAX,
        succeeds(names, events, identity, saving, version, record),
        events.len() == chain_length(names),
    ensures
        recordings(names, events, chain_length(names)) == Seq::new(
            names.len(),
            |j: int|
                {
                    let sphere = names.len() - 1 - j;
                    (
                        identity(sphere),
                        saving(sphere, saves(names, events, chain_length(names), sphere)),
                    )
                },
        ),
{
    lemma_linking(names, events, identity, saving, version, record, names.len());
    assert forall|sphere: int| 0 <= sphere < names.len() implies final_saves(names, sphere)
        == #[trigger] saves(names, events, chain_length(names), sphere) by {}
}

/// In a complete chain there is one sphere more than there are names. The
/// spheres were made in order, the origin first, each once and with an author
/// who may write. Each sphere but the origin has stored its own name, as subtext
/// under `my-name`.
pub proof fn law_chain_makes_every_sphere<D, V, R, E>(
    names: Seq<String>,
    events: Seq<ChainEvent<D, V, R, E>>,
    identity: spec_fn(int) -> D,
    saving: spec_fn(int, nat) -> V,
    version: spec_fn(int, nat) -> String,
    record: spec_fn(int, D, String) -> R,
)
    requires
        names.len() <= usize::MAX,
        succeeds(names, events, identity, saving, version, record),
        events.len() == chain_length(names),
    ensures
        creations(names, events, chain_length(names)) == Seq::new(
            names.len() + 1,
            |i: int| (i, SimulationAccess::ReadWrite),
        ),
        forall|sphere: int|
            1 <= sphere <= names.len() ==> #[trigger] stored(
                names,
                events,
                chain_length(names),
                sphere,
            ) == Some(("my-name"@, ContentKind::Subtext, names[sphere - 1])),
{
    lemma_linking(names, events, identity, saving, version, record, names.len());
}

/// What a sphere of a chain signs is always the claim by which it publishes an
/// address of its own, for two minutes.
pub proof fn law_chain_signs_claims_to_publish<D, V, R, E>(state: ChainState<D, V, R, E>)
    ensures
        state.pending() matches ChainAction::Sign { claim, .. } ==> {
            &&& *claim.audience == *claim.resource
            &&& claim.action == CapabilityAction::Publish
            &&& claim.lifetime == 120
        },
{
}

/// Whether `event` is an answer to what `state` asks for. Only an identity that
/// is noted, or that of a sphere which has just adopted another, may fail to be
/// had.
pub open spec fn is_answer<D, V, R, E>(
    state: ChainState<D, V, R, E>,
    event: ChainEvent<D, V, R, E>,
) -> bool {
    match (state.pending(), event) {
        (ChainAction::CreateOrigin { .. }, ChainEvent::Created) => true,
        (ChainAction::CreatePeer { .. }, ChainEvent::Created) => true,
        (ChainAction::WriteName { .. }, ChainEvent::NameWritten) => true,
        (ChainAction::Save { .. }, ChainEvent::Saved { .. }) => true,
        (ChainAction::Identity { .. }, ChainEvent::Identified { .. }) => true,
        (ChainAction::Identity { .. }, ChainEvent::Failed { .. }) => state.phase !is NextIdentity,
        (ChainAction::Version { .. }, ChainEvent::Versioned { .. }) => true,
        (ChainAction::Sign { .. }, ChainEvent::Signed { .. }) => true,
        (ChainAction::ReadName { .. }, ChainEvent::NameRead { .. }) => true,
        (ChainAction::Adopt { .. }, ChainEvent::Adopted) => true,
        (ChainAction::SetVersion { .. }, ChainEvent::VersionSet) => true,
        _ => false,
    }
}

/// There is nothing left to do exactly at the end.
/// An event has an effect exactly if it answers the action that was asked for.
/// An answer that an identity could not be had ends the construction with that
/// error, and no other answer ends it with an error.
pub proof fn law_chain_goes_by_answers<D, V, R, E>(
    state: ChainState<D, V, R, E>,
    event: ChainEvent<D, V, R, E>,
)
    requires
        state.wf(),
    ensures
        state.pending() is Finish <==> state.phase is Done || state.phase is Failed,
        state.next(event) == state <==> !is_answer(state, event),
        state.next(event).names == state.names,
        is_answer(state, event) ==> match event {
            ChainEvent::Failed { error } => state.next(event).phase == (ChainPhase::Failed::<
                D,
                V,
                R,
                E,
            > { error }),
            _ => state.next(event).phase !is Failed,
        },
{
}

} // verus!
