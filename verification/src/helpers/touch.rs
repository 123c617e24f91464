//! Walking an entire sphere.

use vstd::prelude::*;

verus! {

/// The steps of a walk over a sphere, in the order in which they are taken.
/// `I` is the type of the entries of an address book, `R` that of link
/// records.
pub enum TouchPhase<I, R, E> {
    LoadContent,
    LoadContentChangelog,
    WalkContent,
    LoadIdentities,
    LoadIdentitiesChangelog,
    /// The next entry of the address book is to be fetched.
    NextIdentity,
    /// The link record of `identity` is to be looked up.
    LinkRecord { identity: I },
    /// The proofs of `record` are to be collected.
    CollectProofs { record: R },
    LoadAuthority,
    LoadDelegations,
    LoadDelegationsChangelog,
    WalkDelegations,
    LoadRevocations,
    LoadRevocationsChangelog,
    WalkRevocations,
    Done,
    Failed { error: E },
}

/// What has to be done next.
pub enum TouchAction<'a, I, R> {
    LoadContent,
    LoadContentChangelog,
    WalkContent,
    LoadIdentities,
    LoadIdentitiesChangelog,
    /// Fetch the next entry of the address book.
    NextIdentity,
    /// Look up the link record of `identity`.
    LinkRecord { identity: &'a I },
    /// Collect the proofs of `record`.
    CollectProofs { record: &'a R },
    LoadAuthority,
    LoadDelegations,
    LoadDelegationsChangelog,
    WalkDelegations,
    LoadRevocations,
    LoadRevocationsChangelog,
    WalkRevocations,
    /// Nothing is left to do: see [`Touch::outcome`].
    Finish,
}

/// What came of an action.
pub enum TouchEvent<I, R, E> {
    /// A part was loaded, a map walked, or proofs collected.
    Touched,
    /// The next entry of the address book, if there is one.
    Identity { identity: Option<I> },
    /// The link record of an entry, if it has one.
    LinkRecord { record: Option<R> },
    /// The action did not succeed.
    Failed { error: E },
}

/// A walk over a sphere that touches every block up to and with the memos,
/// but not what the memos stand for.
pub struct Touch<I, R, E> {
    pub phase: TouchPhase<I, R, E>,
}

/// Starts a walk over an entire sphere.
pub fn touch_all_sphere_blocks<I, R, E>() -> (touch: Touch<I, R, E>)
    ensures
        touch.phase == TouchPhase::<I, R, E>::LoadContent,
{
    Touch { phase: TouchPhase::LoadContent }
}

impl<I, R, E> Touch<I, R, E> {
    /// The phase that follows once the pending action has led to `event`; the
    /// same phase where `event` is no answer to that action.
    pub open spec fn phase_after(self, event: TouchEvent<I, R, E>) -> TouchPhase<I, R, E> {
        match (self.phase, event) {
            (TouchPhase::LoadContent, TouchEvent::Touched) => TouchPhase::LoadContentChangelog,
            (TouchPhase::LoadContentChangelog, TouchEvent::Touched) => TouchPhase::WalkContent,
            (TouchPhase::WalkContent, TouchEvent::Touched) => TouchPhase::LoadIdentities,
            (TouchPhase::LoadIdentities, TouchEvent::Touched) => TouchPhase::LoadIdentitiesChangelog,
            (TouchPhase::LoadIdentitiesChangelog, TouchEvent::Touched) => TouchPhase::NextIdentity,
            (TouchPhase::NextIdentity, TouchEvent::Identity { identity: Some(identity) }) =>
                TouchPhase::LinkRecord { identity },
            (TouchPhase::NextIdentity, TouchEvent::Identity { identity: None }) =>
                TouchPhase::LoadAuthority,
            (TouchPhase::LinkRecord { .. }, TouchEvent::LinkRecord { record: Some(record) }) =>
                TouchPhase::CollectProofs { record },
            (TouchPhase::LinkRecord { .. }, TouchEvent::LinkRecord { record: None }) =>
                TouchPhase::NextIdentity,
            (TouchPhase::CollectProofs { .. }, TouchEvent::Touched) => TouchPhase::NextIdentity,
            (TouchPhase::LoadAuthority, TouchEvent::Touched) => TouchPhase::LoadDelegations,
            (TouchPhase::LoadDelegations, TouchEvent::Touched) =>
                TouchPhase::LoadDelegationsChangelog,
            (TouchPhase::LoadDelegationsChangelog, TouchEvent::Touched) => TouchPhase::WalkDelegations,
            (TouchPhase::WalkDelegations, TouchEvent::Touched) => TouchPhase::LoadRevocations,
            (TouchPhase::LoadRevocations, TouchEvent::Touched) =>
                TouchPhase::LoadRevocationsChangelog,
            (TouchPhase::LoadRevocationsChangelog, TouchEvent::Touched) => TouchPhase::WalkRevocations,
            (TouchPhase::WalkRevocations, TouchEvent::Touched) => TouchPhase::Done,
            (TouchPhase::Done, _) => self.phase,
            (TouchPhase::Failed { .. }, _) => self.phase,
            (TouchPhase::LinkRecord { .. }, TouchEvent::Failed { .. }) => self.phase,
            (_, TouchEvent::Failed { error }) => TouchPhase::Failed { error },
            _ => self.phase,
        }
    }

    /// What has to be done next.
    pub open spec fn pending(&self) -> TouchAction<'_, I, R> {
        match &self.phase {
            TouchPhase::LoadContent => TouchAction::LoadContent,
            TouchPhase::LoadContentChangelog => TouchAction::LoadContentChangelog,
            TouchPhase::WalkContent => TouchAction::WalkContent,
            TouchPhase::LoadIdentities => TouchAction::LoadIdentities,
            TouchPhase::LoadIdentitiesChangelog => TouchAction::LoadIdentitiesChangelog,
            TouchPhase::NextIdentity => TouchAction::NextIdentity,
            TouchPhase::LinkRecord { identity } => TouchAction::LinkRecord { identity },
            TouchPhase::CollectProofs { record } => TouchAction::CollectProofs { record },
            TouchPhase::LoadAuthority => TouchAction::LoadAuthority,
            TouchPhase::LoadDelegations => TouchAction::LoadDelegations,
            TouchPhase::LoadDelegationsChangelog => TouchAction::LoadDelegationsChangelog,
            TouchPhase::WalkDelegations => TouchAction::WalkDelegations,
            TouchPhase::LoadRevocations => TouchAction::LoadRevocations,
            TouchPhase::LoadRevocationsChangelog => TouchAction::LoadRevocationsChangelog,
            TouchPhase::WalkRevocations => TouchAction::WalkRevocations,
            TouchPhase::Done => TouchAction::Finish,
            TouchPhase::Failed { .. } => TouchAction::Finish,
        }
    }

    /// What has to be done next.
    pub fn action(&self) -> (action: TouchAction<'_, I, R>)
        ensures
            action == self.pending(),
    {
        match &self.phase {
            TouchPhase::LoadContent => TouchAction::LoadContent,
            TouchPhase::LoadContentChangelog => TouchAction::LoadContentChangelog,
            TouchPhase::WalkContent => TouchAction::WalkContent,
            TouchPhase::LoadIdentities => TouchAction::LoadIdentities,
            TouchPhase::LoadIdentitiesChangelog => TouchAction::LoadIdentitiesChangelog,
            TouchPhase::NextIdentity => TouchAction::NextIdentity,
            TouchPhase::LinkRecord { identity } => TouchAction::LinkRecord { identity },
            TouchPhase::CollectProofs { record } => TouchAction::CollectProofs { record },
            TouchPhase::LoadAuthority => TouchAction::LoadAuthority,
            TouchPhase::LoadDelegations => TouchAction::LoadDelegations,
            TouchPhase::LoadDelegationsChangelog => TouchAction::LoadDelegationsChangelog,
            TouchPhase::WalkDelegations => TouchAction::WalkDelegations,
            TouchPhase::LoadRevocations => TouchAction::LoadRevocations,
            TouchPhase::LoadRevocationsChangelog => TouchAction::LoadRevocationsChangelog,
            TouchPhase::WalkRevocations => TouchAction::WalkRevocations,
            TouchPhase::Done => TouchAction::Finish,
            TouchPhase::Failed { .. } => TouchAction::Finish,
        }
    }

    /// Takes in what came of the pending action. An event that is no answer
    /// to that action changes nothing. Looking up a link record cannot fail:
    /// a record that cannot be had is one that is not there.
    pub fn step(self, event: TouchEvent<I, R, E>) -> (touch: Self)
        ensures
            touch.phase == self.phase_after(event),
    {
        let phase = match (self.phase, event) {
            (TouchPhase::LoadContent, TouchEvent::Touched) => TouchPhase::LoadContentChangelog,
            (TouchPhase::LoadContentChangelog, TouchEvent::Touched) => TouchPhase::WalkContent,
            (TouchPhase::WalkContent, TouchEvent::Touched) => TouchPhase::LoadIdentities,
            (TouchPhase::LoadIdentities, TouchEvent::Touched) => TouchPhase::LoadIdentitiesChangelog,
            (TouchPhase::LoadIdentitiesChangelog, TouchEvent::Touched) => TouchPhase::NextIdentity,
            (TouchPhase::NextIdentity, TouchEvent::Identity { identity: Some(identity) }) =>
                TouchPhase::LinkRecord { identity },
            (TouchPhase::NextIdentity, TouchEvent::Identity { identity: None }) =>
                TouchPhase::LoadAuthority,
            (TouchPhase::LinkRecord { .. }, TouchEvent::LinkRecord { record: Some(record) }) =>
                TouchPhase::CollectProofs { record },
            (TouchPhase::LinkRecord { .. }, TouchEvent::LinkRecord { record: None }) =>
                TouchPhase::NextIdentity,
            (TouchPhase::CollectProofs { .. }, TouchEvent::Touched) => TouchPhase::NextIdentity,
            (TouchPhase::LoadAuthority, TouchEvent::Touched) => TouchPhase::LoadDelegations,
            (TouchPhase::LoadDelegations, TouchEvent::Touched) =>
                TouchPhase::LoadDelegationsChangelog,
            (TouchPhase::LoadDelegationsChangelog, TouchEvent::Touched) => TouchPhase::WalkDelegations,
            (TouchPhase::WalkDelegations, TouchEvent::Touched) => TouchPhase::LoadRevocations,
            (TouchPhase::LoadRevocations, TouchEvent::Touched) =>
                TouchPhase::LoadRevocationsChangelog,
            (TouchPhase::LoadRevocationsChangelog, TouchEvent::Touched) => TouchPhase::WalkRevocations,
            (TouchPhase::WalkRevocations, TouchEvent::Touched) => TouchPhase::Done,
            (TouchPhase::Done, _) => TouchPhase::Done,
            (TouchPhase::Failed { error }, _) => TouchPhase::Failed { error },
            (TouchPhase::LinkRecord { identity }, TouchEvent::Failed { .. }) =>
                TouchPhase::LinkRecord { identity },
            (_, TouchEvent::Failed { error }) => TouchPhase::Failed { error },
            (phase, _) => phase,
        };
        Touch { phase }
    }

    /// Whether the walk is over, and the error that ended it if one did;
    /// `None` while it is under way.
    pub fn outcome(self) -> (outcome: Option<Result<(), E>>)
        ensures
            match self.phase {
                TouchPhase::Done => outcome == Some(Ok::<(), E>(())),
                TouchPhase::Failed { error } => outcome == Some(Err::<(), E>(error)),
                _ => outcome is None,
            },
    {
        match self.phase {
            TouchPhase::Done => Some(Ok(())),
            TouchPhase::Failed { error } => Some(Err(error)),
            _ => None,
        }
    }
}

/// The parts of a sphere that a walk touches.
pub enum SpherePart {
    Content,
    ContentChangelog,
    ContentEntries,
    Identities,
    IdentitiesChangelog,
    IdentityEntries,
    Authority,
    Delegations,
    DelegationsChangelog,
    DelegationEntries,
    Revocations,
    RevocationsChangelog,
    RevocationEntries,
}

/// All parts of a sphere, in the order in which a walk touches them: of each
/// of its four maps the map itself, its changelog and its entries.
pub open spec fn all_parts() -> Seq<SpherePart> {
    seq![
        SpherePart::Content,
        SpherePart::ContentChangelog,
        SpherePart::ContentEntries,
        SpherePart::Identities,
        SpherePart::IdentitiesChangelog,
        SpherePart::IdentityEntries,
        SpherePart::Authority,
        SpherePart::Delegations,
        SpherePart::DelegationsChangelog,
        SpherePart::DelegationEntries,
        SpherePart::Revocations,
        SpherePart::RevocationsChangelog,
        SpherePart::RevocationEntries,
    ]
}

/// What a walk has accomplished.
#[verifier::ext_equal]
pub struct TouchLog<I, R> {
    /// The parts that are fully touched.
    pub parts: Seq<SpherePart>,
    /// The entries of the address book that were fetched.
    pub entries: Seq<I>,
    /// The entries whose link record was looked up.
    pub looked_up: Seq<I>,
    /// The link records that were found.
    pub found: Seq<R>,
    /// The link records whose proofs were collected.
    pub proven: Seq<R>,
}

/// The part that is fully touched once `action` has led to `event`.
pub open spec fn part_touched<I, R, E>(
    action: TouchAction<'_, I, R>,
    event: TouchEvent<I, R, E>,
) -> Option<SpherePart> {
    match (action, event) {
        (TouchAction::LoadContent, TouchEvent::Touched) => Some(SpherePart::Content),
        (TouchAction::LoadContentChangelog, TouchEvent::Touched) => Some(SpherePart::ContentChangelog),
        (TouchAction::WalkContent, TouchEvent::Touched) => Some(SpherePart::ContentEntries),
        (TouchAction::LoadIdentities, TouchEvent::Touched) => Some(SpherePart::Identities),
        (TouchAction::LoadIdentitiesChangelog, TouchEvent::Touched) => Some(SpherePart::IdentitiesChangelog),
        (TouchAction::NextIdentity, TouchEvent::Identity { identity: None }) => Some(
            SpherePart::IdentityEntries,
        ),
        (TouchAction::LoadAuthority, TouchEvent::Touched) => Some(SpherePart::Authority),
        (TouchAction::LoadDelegations, TouchEvent::Touched) => Some(SpherePart::Delegations),
        (TouchAction::LoadDelegationsChangelog, TouchEvent::Touched) => Some(SpherePart::DelegationsChangelog),
        (TouchAction::WalkDelegations, TouchEvent::Touched) => Some(SpherePart::DelegationEntries),
        (TouchAction::LoadRevocations, TouchEvent::Touched) => Some(SpherePart::Revocations),
        (TouchAction::LoadRevocationsChangelog, TouchEvent::Touched) => Some(SpherePart::RevocationsChangelog),
        (TouchAction::WalkRevocations, TouchEvent::Touched) => Some(SpherePart::RevocationEntries),
        _ => None,
    }
}

/// A walk from its start through `events`: where it stands, and what the
/// actions that it asked for have accomplished.
pub open spec fn walk<I, R, E>(events: Seq<TouchEvent<I, R, E>>) -> (Touch<I, R, E>, TouchLog<I, R>)
    decreases events.len(),
{
    if events.len() == 0 {
        (
            Touch { phase: TouchPhase::LoadContent },
            TouchLog {
                parts: Seq::empty(),
                entries: Seq::empty(),
                looked_up: Seq::empty(),
                found: Seq::empty(),
                proven: Seq::empty(),
            },
        )
    } else {
        let (touch, log) = walk(events.drop_last());
        let event = events.last();
        (
            Touch { phase: touch.phase_after(event) },
            TouchLog {
                parts: match part_touched(touch.pending(), event) {
                    Some(part) => log.parts.push(part),
                    None => log.parts,
                },
                entries: match (touch.pending(), event) {
                    (TouchAction::NextIdentity, TouchEvent::Identity { identity: Some(identity) }) =>
                        log.entries.push(identity),
                    _ => log.entries,
                },
                looked_up: match (touch.pending(), event) {
                    (TouchAction::LinkRecord { identity }, TouchEvent::LinkRecord { .. }) =>
                        log.looked_up.push(*identity),
                    _ => log.looked_up,
                },
                found: match (touch.pending(), event) {
                    (TouchAction::LinkRecord { .. }, TouchEvent::LinkRecord { record: Some(record) }) =>
                        log.found.push(record),
                    _ => log.found,
                },
                proven: match (touch.pending(), event) {
                    (TouchAction::CollectProofs { record }, TouchEvent::Touched) =>
                        log.proven.push(*record),
                    _ => log.proven,
                },
            },
        )
    }
}

/// How many parts are fully touched in `phase`, unless the walk has failed.
pub open spec fn parts_before<I, R, E>(phase: TouchPhase<I, R, E>) -> int {
    match phase {
        TouchPhase::LoadContent => 0,
        TouchPhase::LoadContentChangelog => 1,
        TouchPhase::WalkContent => 2,
        TouchPhase::LoadIdentities => 3,
        TouchPhase::LoadIdentitiesChangelog => 4,
        TouchPhase::NextIdentity => 5,
        TouchPhase::LinkRecord { .. } => 5,
        TouchPhase::CollectProofs { .. } => 5,
        TouchPhase::LoadAuthority => 6,
        TouchPhase::LoadDelegations => 7,
        TouchPhase::LoadDelegationsChangelog => 8,
        TouchPhase::WalkDelegations => 9,
        TouchPhase::LoadRevocations => 10,
        TouchPhase::LoadRevocationsChangelog => 11,
        TouchPhase::WalkRevocations => 12,
        _ => 13,
    }
}

proof fn lemma_walk<I, R, E>(events: Seq<TouchEvent<I, R, E>>)
    ensures
        ({
            let (touch, log) = walk(events);
            touch.phase !is Failed ==> {
                &&& log.parts == all_parts().take(parts_before(touch.phase))
                &&& match touch.phase {
                    TouchPhase::CollectProofs { record } => log.found == log.proven.push(record),
                    _ => log.found == log.proven,
                }
                &&& match touch.phase {
                    TouchPhase::LinkRecord { identity } => log.entries == log.looked_up.push(
                        identity,
                    ),
                    _ => log.entries == log.looked_up,
                }
            }
        }),
    decreases events.len(),
{
    if events.len() > 0 {
        lemma_walk(events.drop_last());
        let (before, earlier) = walk(events.drop_last());
        let (touch, log) = walk(events);
        if touch.phase !is Failed {
            assert(log.parts =~= all_parts().take(parts_before(touch.phase)));
        }
    } else {
        let (touch, log) = walk(events);
        assert(log.parts =~= all_parts().take(0));
    }
}

/// A walk that reports success has asked for every part of the sphere and had
/// it touched, each once and in this order. It has looked up the link record of
/// every entry of the address book, and has collected the proofs of exactly
/// those link records that it found.
pub proof fn law_finished_walk_is_complete<I, R, E>(events: Seq<TouchEvent<I, R, E>>)
    requires
        walk(events).0.phase is Done,
    ensures
        walk(events).1.parts == all_parts(),
        walk(events).1.parts == seq![
            SpherePart::Content,
            SpherePart::ContentChangelog,
            SpherePart::ContentEntries,
            SpherePart::Identities,
            SpherePart::IdentitiesChangelog,
            SpherePart::IdentityEntries,
            SpherePart::Authority,
            SpherePart::Delegations,
            SpherePart::DelegationsChangelog,
            SpherePart::DelegationEntries,
            SpherePart::Revocations,
            SpherePart::RevocationsChangelog,
            SpherePart::RevocationEntries,
        ],
        walk(events).1.entries == walk(events).1.looked_up,
        walk(events).1.found == walk(events).1.proven,
{
    lemma_walk(events);
    assert(all_parts().take(13) =~= all_parts());
}

/// Whether `event` is an answer to `action`. Looking up a link record cannot
/// fail.
pub open spec fn answers<I, R, E>(
    action: TouchAction<'_, I, R>,
    event: TouchEvent<I, R, E>,
) -> bool {
    match (action, event) {
        (TouchAction::Finish, _) => false,
        (TouchAction::LinkRecord { .. }, TouchEvent::LinkRecord { .. }) => true,
        (TouchAction::LinkRecord { .. }, _) => false,
        (_, TouchEvent::Failed { .. }) => true,
        (TouchAction::NextIdentity, TouchEvent::Identity { .. }) => true,
        (TouchAction::NextIdentity, _) => false,
        (_, TouchEvent::Touched) => true,
        _ => false,
    }
}

/// There is nothing left to do exactly at the end.
/// An event has an effect exactly if it answers the action that was asked for.
/// An answer that the action failed ends the walk with that error, and no other
/// answer ends it with an error.
pub proof fn law_walk_goes_by_answers<I, R, E>(touch: Touch<I, R, E>, event: TouchEvent<I, R, E>)
    ensures
        touch.pending() is Finish <==> touch.phase is Done || touch.phase is Failed,
        touch.phase_after(event) == touch.phase <==> !answers(touch.pending(), event),
        answers(touch.pending(), event) ==> match event {
            TouchEvent::Failed { error } => touch.phase_after(event) == (TouchPhase::Failed::<I, R, E> {
                error,
            }),
            _ => touch.phase_after(event) !is Failed,
        },
{
}

/// The walk after one more part was touched.
pub open spec fn touched<I, R, E>(touch: Touch<I, R, E>) -> Touch<I, R, E> {
    Touch { phase: touch.phase_after(TouchEvent::Touched) }
}

/// What is asked for, from the beginning to the end, where nothing fails. Of
/// every entry of the address book the link record is looked up, and of every
/// record that is found the proofs are collected, before the next entry is
/// fetched. Once there is no further entry, the walk goes on to the authority,
/// and ends with success after the revocations.
pub proof fn law_walk_takes_these_steps<I, R, E>(identity: I, record: R)
    ensures
        ({
            let content = Touch::<I, R, E> { phase: TouchPhase::LoadContent };
            let identities = touched(touched(touched(content)));
            let book = touched(touched(identities));
            let entry = Touch {
                phase: book.phase_after(TouchEvent::Identity { identity: Some(identity) }),
            };
            let found = Touch {
                phase: entry.phase_after(TouchEvent::LinkRecord { record: Some(record) }),
            };
            let authority = Touch {
                phase: book.phase_after(TouchEvent::Identity { identity: None }),
            };
            let delegations = touched(authority);
            let revocations = touched(touched(touched(delegations)));
            &&& content.pending() is LoadContent
            &&& touched(content).pending() is LoadContentChangelog
            &&& touched(touched(content)).pending() is WalkContent
            &&& identities.pending() is LoadIdentities
            &&& touched(identities).pending() is LoadIdentitiesChangelog
            &&& book.pending() is NextIdentity
            &&& entry.pending() matches TouchAction::LinkRecord { identity: of } && *of == identity
            &&& entry.phase_after(TouchEvent::LinkRecord { record: None }) == book.phase
            &&& found.pending() matches TouchAction::CollectProofs { record: of } && *of == record
            &&& touched(found) == book
            &&& authority.pending() is LoadAuthority
            &&& delegations.pending() is LoadDelegations
            &&& touched(delegations).pending() is LoadDelegationsChangelog
            &&& touched(touched(delegations)).pending() is WalkDelegations
            &&& revocations.pending() is LoadRevocations
            &&& touched(revocations).pending() is LoadRevocationsChangelog
            &&& touched(touched(revocations)).pending() is WalkRevocations
            &&& touched(touched(touched(revocations))).phase is Done
        }),
{
}

} // verus!
