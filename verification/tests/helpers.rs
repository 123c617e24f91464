use noosphere::content::ContentKind;
use noosphere::helpers::link_record::{
    make_valid_link_record, publish_claim, CapabilityAction, LinkRecordAction, LinkRecordEvent,
    LinkRecordMaking, LINK_FACT,
};
use noosphere::helpers::peer_chain::{
    make_sphere_context_with_peer_chain, ChainAction, ChainEvent, PeerChain,
};
use noosphere::helpers::simulation::{
    simulated_sphere_context, Simulation, SimulationAccess, SimulationAction, SimulationEvent,
};
use noosphere::helpers::touch::{touch_all_sphere_blocks, Touch, TouchAction, TouchEvent};

/// The versions that were recorded: the number of the database, the sphere, and
/// the version.
type Recorded = Vec<(u32, String, u64)>;

/// Simulates a sphere context where every step succeeds, and a database that
/// has to be opened gets the number `fresh`. The context is the number of the
/// database, the identity of the sphere and the authorization of its author.
fn simulate(
    profile: SimulationAccess,
    db: Option<u32>,
    fresh: u32,
) -> ((u32, String, Option<u32>), Recorded) {
    let mut simulation: Simulation<u32, String, u64, u32, (u32, String, Option<u32>), String> =
        simulated_sphere_context(profile, db);
    let mut recorded = Vec::new();
    loop {
        let event = match simulation.action() {
            SimulationAction::OpenDatabase => SimulationEvent::DatabaseOpened { db: fresh },
            SimulationAction::GenerateOwner => SimulationEvent::OwnerGenerated {
                owner: "owner".to_string(),
            },
            SimulationAction::GenerateSphere { db, owner } => {
                assert_eq!(owner, "owner");
                SimulationEvent::SphereGenerated { version: 900, proof: 100 + *db }
            }
            SimulationAction::SphereIdentity { version } => {
                assert_eq!(*version, 900);
                SimulationEvent::SphereIdentified { identity: "sphere".to_string() }
            }
            SimulationAction::SetVersion { db, identity, version } => {
                recorded.push((*db, identity.clone(), *version));
                SimulationEvent::VersionSet
            }
            SimulationAction::NewContext { db, identity, authorization } => {
                SimulationEvent::ContextMade { context: (*db, identity.clone(), *authorization) }
            }
            SimulationAction::Finish => break,
        };
        simulation = simulation.step(event);
    }
    (simulation.outcome().unwrap().unwrap(), recorded)
}

#[test]
fn only_writers_are_authorized() {
    let (context, _) = simulate(SimulationAccess::Readonly, Some(7), 0);
    assert_eq!(context, (7, "sphere".to_string(), None));
    let (context, _) = simulate(SimulationAccess::ReadWrite, Some(7), 0);
    assert_eq!(context, (7, "sphere".to_string(), Some(107)));
}

#[test]
fn simulation_stays_in_its_database() {
    let (context, recorded) = simulate(SimulationAccess::ReadWrite, Some(7), 1);
    assert_eq!(context.0, 7);
    assert_eq!(recorded, [(7, "sphere".to_string(), 900)]);
    let (context, recorded) = simulate(SimulationAccess::Readonly, None, 1);
    assert_eq!(context, (1, "sphere".to_string(), None));
    assert_eq!(recorded, [(1, "sphere".to_string(), 900)]);
}

#[test]
fn simulations_share_no_database() {
    let (first, first_recorded) = simulate(SimulationAccess::ReadWrite, None, 1);
    let (second, second_recorded) = simulate(SimulationAccess::ReadWrite, None, 2);
    assert_eq!((first.0, second.0), (1, 2));
    assert!(first_recorded.iter().all(|(db, _, _)| *db != 2));
    assert!(second_recorded.iter().all(|(db, _, _)| *db != 1));
}

#[test]
fn failed_step_ends_the_simulation() {
    let simulation: Simulation<u8, u8, u8, u8, u8, u8> =
        simulated_sphere_context(SimulationAccess::ReadWrite, Some(0));
    let simulation = simulation
        .step(SimulationEvent::VersionSet)
        .step(SimulationEvent::OwnerGenerated { owner: 1 })
        .step(SimulationEvent::Failed { error: 4 })
        .step(SimulationEvent::SphereGenerated { version: 3, proof: 2 });
    assert_eq!(simulation.outcome(), Some(Err(4)));
}

#[test]
fn claim_publishes_an_address() {
    let link = "bafy".to_string();
    let claim = publish_claim(&"did:key:sphere", &link);
    assert_eq!(*claim.audience, "did:key:sphere");
    assert_eq!(*claim.resource, "did:key:sphere");
    assert_eq!(claim.action, CapabilityAction::Publish);
    assert_eq!(claim.lifetime, 120);
    assert_eq!(claim.link, "bafy");
    assert_eq!(LINK_FACT, "link");
}

#[test]
fn link_record_and_proof_are_stored() {
    let mut making: LinkRecordMaking<String, u8, String, String, usize, String> =
        make_valid_link_record();
    let mut tokens: Vec<String> = Vec::new();
    loop {
        let event = match making.action() {
            LinkRecordAction::GenerateOwner => LinkRecordEvent::OwnerGenerated {
                owner: "owner".to_string(),
            },
            LinkRecordAction::OpenDatabase => LinkRecordEvent::DatabaseOpened,
            LinkRecordAction::GenerateSphere { owner } => {
                assert_eq!(owner, "owner");
                LinkRecordEvent::SphereGenerated { proof: 1, link: "bafy".to_string() }
            }
            LinkRecordAction::ResolveProof { proof } => LinkRecordEvent::ProofResolved {
                witness: format!("proof {proof}"),
            },
            LinkRecordAction::SphereIdentity => LinkRecordEvent::SphereIdentified {
                identity: "sphere".to_string(),
            },
            LinkRecordAction::Sign { claim, witness } => LinkRecordEvent::Signed {
                record: format!("{} publishes {} by {}", claim.audience, claim.link, witness),
            },
            LinkRecordAction::StoreProof { witness } => {
                tokens.push(witness.clone());
                LinkRecordEvent::Stored { address: tokens.len() - 1 }
            }
            LinkRecordAction::StoreRecord { record } => {
                tokens.push(record.clone());
                LinkRecordEvent::Stored { address: tokens.len() - 1 }
            }
            LinkRecordAction::Finish => break,
        };
        making = making.step(event);
    }
    let (identity, record, address) = making.outcome().unwrap().unwrap();
    assert_eq!(identity, "sphere");
    assert_eq!(record, "sphere publishes bafy by proof 1");
    assert_eq!(tokens, ["proof 1", "sphere publishes bafy by proof 1"]);
    assert_eq!(address, 1);
}

#[test]
fn failed_step_ends_the_making_of_a_link_record() {
    let making: LinkRecordMaking<u8, u8, u8, u8, u8, u8> = make_valid_link_record();
    let making = making
        .step(LinkRecordEvent::OwnerGenerated { owner: 1 })
        .step(LinkRecordEvent::Failed { error: 6 });
    assert_eq!(making.outcome(), Some(Err(6)));
}

/// Walks a sphere whose address book has the given entries, each with its
/// link record if it has one. Lists the steps.
fn walk(entries: &[(&'static str, Option<u8>)]) -> Vec<String> {
    let mut touch: Touch<usize, u8, String> = touch_all_sphere_blocks();
    let mut next = 0;
    let mut steps = Vec::new();
    loop {
        let event = match touch.action() {
            TouchAction::NextIdentity => {
                if next < entries.len() {
                    next += 1;
                    TouchEvent::Identity { identity: Some(next - 1) }
                } else {
                    TouchEvent::Identity { identity: None }
                }
            }
            TouchAction::LinkRecord { identity } => {
                steps.push(entries[*identity].0.to_string());
                TouchEvent::LinkRecord { record: entries[*identity].1 }
            }
            TouchAction::CollectProofs { record } => {
                steps.push(format!("proofs of {record}"));
                TouchEvent::Touched
            }
            TouchAction::LoadContent => {
                steps.push("content".to_string());
                TouchEvent::Touched
            }
            TouchAction::WalkRevocations => {
                steps.push("revocations".to_string());
                TouchEvent::Touched
            }
            TouchAction::Finish => break,
            _ => TouchEvent::Touched,
        };
        touch = touch.step(event);
    }
    assert_eq!(touch.outcome(), Some(Ok(())));
    steps
}

#[test]
fn walk_collects_the_proofs_of_all_link_records() {
    assert_eq!(walk(&[]), ["content", "revocations"]);
    assert_eq!(
        walk(&[("alice", Some(1)), ("bob", None), ("cleo", Some(2))]),
        ["content", "alice", "proofs of 1", "bob", "cleo", "proofs of 2", "revocations"]
    );
}

#[test]
fn walk_touches_the_parts_in_order() {
    let mut touch: Touch<u8, u8, u8> = touch_all_sphere_blocks();
    let mut steps = 0;
    while !matches!(touch.action(), TouchAction::NextIdentity) {
        touch = touch.step(TouchEvent::Touched);
        steps += 1;
    }
    assert_eq!(steps, 5);
    touch = touch.step(TouchEvent::Identity { identity: None });
    assert!(matches!(touch.action(), TouchAction::LoadAuthority));
    touch = touch.step(TouchEvent::Touched);
    assert!(matches!(touch.action(), TouchAction::LoadDelegations));
    touch = touch.step(TouchEvent::Touched);
    assert!(matches!(touch.action(), TouchAction::LoadDelegationsChangelog));
    touch = touch.step(TouchEvent::Touched);
    assert!(matches!(touch.action(), TouchAction::WalkDelegations));
    touch = touch.step(TouchEvent::Touched);
    assert!(matches!(touch.action(), TouchAction::LoadRevocations));
    touch = touch.step(TouchEvent::Touched);
    assert!(matches!(touch.action(), TouchAction::LoadRevocationsChangelog));
    touch = touch.step(TouchEvent::Touched);
    assert!(matches!(touch.action(), TouchAction::WalkRevocations));
    touch = touch.step(TouchEvent::Touched);
    assert_eq!(touch.outcome(), Some(Ok(())));
}

#[test]
fn missing_block_ends_the_walk() {
    let touch: Touch<u8, u8, String> = touch_all_sphere_blocks();
    let touch = touch
        .step(TouchEvent::Touched)
        .step(TouchEvent::Failed { error: "missing".to_string() })
        .step(TouchEvent::Touched);
    assert_eq!(touch.outcome(), Some(Err("missing".to_string())));
}

struct Spheres {
    /// The name that each sphere has stored.
    names: Vec<Option<String>>,
    /// How often each sphere was saved.
    versions: Vec<usize>,
    /// What each sphere has in its address book: name and link record.
    books: Vec<Vec<(String, String)>>,
    /// The versions that were recorded as the latest.
    latest: Vec<(String, usize)>,
}

/// Builds a chain of spheres where every step succeeds.
fn build(names: &[&str]) -> (Spheres, Vec<String>) {
    let peer_chain = names.iter().map(|name| name.to_string()).collect();
    let mut chain: PeerChain<String, usize, String, String> =
        make_sphere_context_with_peer_chain(peer_chain);
    let mut spheres = Spheres {
        names: Vec::new(),
        versions: Vec::new(),
        books: Vec::new(),
        latest: Vec::new(),
    };
    loop {
        let event = match chain.action() {
            ChainAction::CreateOrigin { access } => {
                assert_eq!(access, SimulationAccess::ReadWrite);
                assert!(spheres.names.is_empty());
                spheres.names.push(None);
                spheres.versions.push(0);
                spheres.books.push(Vec::new());
                ChainEvent::Created
            }
            ChainAction::CreatePeer { access, sphere } => {
                assert_eq!(access, SimulationAccess::ReadWrite);
                assert_eq!(sphere, spheres.names.len());
                spheres.names.push(None);
                spheres.versions.push(0);
                spheres.books.push(Vec::new());
                ChainEvent::Created
            }
            ChainAction::WriteName { sphere, slug, kind, name } => {
                assert_eq!(slug, "my-name");
                assert_eq!(kind, ContentKind::Subtext);
                spheres.names[sphere] = Some(name.clone());
                ChainEvent::NameWritten
            }
            ChainAction::Save { sphere } => {
                spheres.versions[sphere] += 1;
                ChainEvent::Saved { version: spheres.versions[sphere] }
            }
            ChainAction::Identity { sphere } => ChainEvent::Identified {
                identity: format!("did:{sphere}"),
            },
            ChainAction::Version { sphere } => ChainEvent::Versioned {
                link: format!("{}.{}", sphere, spheres.versions[sphere]),
            },
            ChainAction::Sign { sphere, claim } => {
                assert_eq!(*claim.audience, format!("did:{sphere}"));
                assert_eq!(*claim.resource, format!("did:{sphere}"));
                assert_eq!(claim.lifetime, 120);
                ChainEvent::Signed { record: claim.link.clone() }
            }
            ChainAction::ReadName { sphere, slug } => {
                assert_eq!(slug, "my-name");
                ChainEvent::NameRead { name: spheres.names[sphere].clone().unwrap() }
            }
            ChainAction::Adopt { sphere, name, record } => {
                spheres.books[sphere].push((name.clone(), record.clone()));
                ChainEvent::Adopted
            }
            ChainAction::SetVersion { identity, version } => {
                spheres.latest.push((identity.clone(), *version));
                ChainEvent::VersionSet
            }
            ChainAction::Finish => break,
        };
        chain = chain.step(event);
    }
    (spheres, chain.outcome().unwrap().unwrap())
}

#[test]
fn chain_lists_every_sphere() {
    assert_eq!(build(&[]).1, ["did:0"]);
    assert_eq!(build(&["alice"]).1, ["did:1", "did:0"]);
    assert_eq!(build(&["alice", "bob", "cleo"]).1, ["did:3", "did:2", "did:1", "did:0"]);
}

#[test]
fn chain_adopts_next_sphere() {
    let (spheres, _) = build(&["alice", "bob", "cleo"]);
    assert_eq!(spheres.books[0], [("alice".to_string(), "1.2".to_string())]);
    assert_eq!(spheres.books[1], [("bob".to_string(), "2.2".to_string())]);
    assert_eq!(spheres.books[2], [("cleo".to_string(), "3.1".to_string())]);
    assert!(spheres.books[3].is_empty());
    assert_eq!(spheres.versions, [1, 2, 2, 1]);
    assert_eq!(
        spheres.latest,
        [
            ("did:2".to_string(), 2),
            ("did:1".to_string(), 2),
            ("did:0".to_string(), 1),
        ]
    );
}

#[test]
fn chain_of_one_sphere_has_an_empty_address_book() {
    let (spheres, _) = build(&[]);
    assert!(spheres.books[0].is_empty());
    assert!(spheres.latest.is_empty());
    assert_eq!(spheres.versions, [0]);
}

#[test]
fn identity_that_cannot_be_had_ends_the_chain() {
    let chain: PeerChain<u8, u8, u8, u8> = make_sphere_context_with_peer_chain(vec![]);
    let chain = chain.step(ChainEvent::Created).step(ChainEvent::Failed { error: 8 });
    assert_eq!(chain.outcome(), Some(Err(8)));
}
