//! What holds of the start of a node, whatever happens in the course of it.

use vstd::prelude::*;

use crate::runner::{
    NodeStore, RunnerAction, RunnerError, RunnerEvent, RunnerNodeConfig, RunnerPhase, RunnerStart,
    StartedNode,
};

verus! {

/// The start of a node, begun as `start`, after `events`.
pub open spec fn start_through<U, K, C, M, S, N, A, I, L, E>(
    start: RunnerStart<U, K, C, M, S, N, A, I, L, E>,
    events: Seq<RunnerEvent<N, A, I, M, L, E>>,
) -> RunnerStart<U, K, C, M, S, N, A, I, L, E>
    decreases events.len(),
{
    if events.len() == 0 {
        start
    } else {
        let before = start_through(start, events.drop_last());
        RunnerStart {
            config: start.config,
            has_api_server: start.has_api_server,
            phase: before.phase_after(events.last()),
        }
    }
}

/// Those of `events` that had an effect, in this order.
pub open spec fn start_answers<U, K, C, M, S, N, A, I, L, E>(
    start: RunnerStart<U, K, C, M, S, N, A, I, L, E>,
    events: Seq<RunnerEvent<N, A, I, M, L, E>>,
) -> Seq<RunnerEvent<N, A, I, M, L, E>>
    decreases events.len(),
{
    if events.len() == 0 {
        Seq::empty()
    } else {
        let earlier = start_answers(start, events.drop_last());
        let before = start_through(start, events.drop_last());
        if before.phase_after(events.last()) == before.phase {
            earlier
        } else {
            earlier.push(events.last())
        }
    }
}

/// What has to happen for a node to be created, and to listen if it is to.
pub open spec fn created_answers<N, A, I, M, L, E>(
    started: StartedNode<N, I, M>,
) -> Seq<RunnerEvent<N, A, I, M, L, E>> {
    let created = seq![
        RunnerEvent::NodeCreated { node: started.node, peer_id: started.peer_id },
    ];
    match started.listening_address {
        Some(address) => created.push(RunnerEvent::Listening { address }),
        None => created,
    }
}

/// What has to happen for a node to be part of the hash table.
pub open spec fn joined_answers<N, A, I, M, L, E>(
    started: StartedNode<N, I, M>,
) -> Seq<RunnerEvent<N, A, I, M, L, E>> {
    created_answers(started).push(RunnerEvent::PeersAdded).push(RunnerEvent::Bootstrapped)
}

/// A node that has been created listens exactly if it is to.
pub open spec fn listens_as_asked<U, K, C, M, S, N, A, I, L, E>(
    start: RunnerStart<U, K, C, M, S, N, A, I, L, E>,
    started: StartedNode<N, I, M>,
) -> bool {
    started.listening_address is Some <==> start.config.listening_address is Some
}

/// What holds of a start in every phase.
pub open spec fn start_is_orderly<U, K, C, M, S, N, A, I, L, E>(
    start: RunnerStart<U, K, C, M, S, N, A, I, L, E>,
    phase: RunnerPhase<N, A, I, M, L, E>,
    answers: Seq<RunnerEvent<N, A, I, M, L, E>>,
) -> bool {
    match phase {
        RunnerPhase::NewNode => answers == Seq::<RunnerEvent<N, A, I, M, L, E>>::empty(),
        RunnerPhase::Listen { node, peer_id } => {
            &&& start.config.listening_address is Some
            &&& answers == seq![RunnerEvent::<N, A, I, M, L, E>::NodeCreated { node, peer_id }]
        },
        RunnerPhase::AddPeers { started } => {
            &&& listens_as_asked(start, started)
            &&& answers == created_answers::<N, A, I, M, L, E>(started)
        },
        RunnerPhase::Bootstrap { started } => {
            &&& listens_as_asked(start, started)
            &&& answers == created_answers::<N, A, I, M, L, E>(started).push(
                RunnerEvent::PeersAdded,
            )
        },
        RunnerPhase::BindApi { started } => {
            &&& listens_as_asked(start, started)
            &&& start.serves_api()
            &&& answers == joined_answers::<N, A, I, M, L, E>(started)
        },
        RunnerPhase::ServeApi { started, listener, url } => {
            &&& listens_as_asked(start, started)
            &&& start.serves_api()
            &&& answers == joined_answers::<N, A, I, M, L, E>(started).push(
                RunnerEvent::ApiBound { listener, url: Ok(url) },
            )
        },
        RunnerPhase::Done { result: Ok(runner) } => {
            let started = StartedNode {
                node: runner.name_system,
                peer_id: runner.peer_id,
                listening_address: runner.listening_address,
            };
            &&& listens_as_asked(start, started)
            &&& match (runner.api_thread, runner.api_address) {
                (None, None) => {
                    &&& !start.serves_api()
                    &&& answers == joined_answers::<N, A, I, M, L, E>(started)
                },
                (Some(thread), Some(url)) => {
                    &&& start.serves_api()
                    &&& exists|listener: L|
                        answers == joined_answers::<N, A, I, M, L, E>(started).push(
                            #[trigger] bound(listener, url),
                        ).push(RunnerEvent::ApiServed { thread })
                },
                _ => false,
            }
        },
        RunnerPhase::Done { result: Err(_) } => true,
    }
}

/// That a listener was bound, and its address makes `url`.
pub open spec fn bound<N, A, I, M, L, E>(
    listener: L,
    url: String,
) -> RunnerEvent<N, A, I, M, L, E> {
    RunnerEvent::ApiBound { listener, url: Ok(url) }
}

/// A node that is running was created, then listened if it was asked to, then
/// got to know its peers, then joined the hash table, and then served its API
/// if it was asked to; it listens and serves nowhere else, and is the node that
/// was created.
pub proof fn law_running_node_was_started_in_order<U, K, C, M, S, N, A, I, L, E>(
    start: RunnerStart<U, K, C, M, S, N, A, I, L, E>,
    events: Seq<RunnerEvent<N, A, I, M, L, E>>,
)
    requires
        start.phase is NewNode,
    ensures
        start_is_orderly(
            start,
            start_through(start, events).phase,
            start_answers(start, events),
        ),
    decreases events.len(),
{
    if events.len() > 0 {
        let earlier = events.drop_last();
        law_running_node_was_started_in_order(start, earlier);
        let before = start_through(start, earlier);
        assert(before.config == start.config && before.has_api_server == start.has_api_server);
        let answers = start_answers(start, earlier);
        match (before.phase, events.last()) {
            (RunnerPhase::NewNode, RunnerEvent::NodeCreated { node, peer_id }) => {
                assert(answers.push(events.last()) =~= seq![
                    RunnerEvent::<N, A, I, M, L, E>::NodeCreated { node, peer_id },
                ]);
            },
            (
                RunnerPhase::ServeApi { started, listener, url },
                RunnerEvent::ApiServed { thread },
            ) => {
                assert(bound::<N, A, I, M, L, E>(listener, url) == RunnerEvent::<
                    N,
                    A,
                    I,
                    M,
                    L,
                    E,
                >::ApiBound { listener, url: Ok(url) });
            },
            _ => {},
        }
    }
}

/// Whether `event` is an answer to `action`.
pub open spec fn answers<U, K, C, M, S, N, A, I, L, E>(
    action: RunnerAction<'_, U, K, C, M, S, N, L>,
    event: RunnerEvent<N, A, I, M, L, E>,
) -> bool {
    match (action, event) {
        (RunnerAction::Finish, _) => false,
        (_, RunnerEvent::Failed { .. }) => true,
        (RunnerAction::NewNode { .. }, RunnerEvent::NodeCreated { .. }) => true,
        (RunnerAction::Listen { .. }, RunnerEvent::Listening { .. }) => true,
        (RunnerAction::AddPeers { .. }, RunnerEvent::PeersAdded) => true,
        (RunnerAction::Bootstrap { .. }, RunnerEvent::Bootstrapped) => true,
        (RunnerAction::BindApi { .. }, RunnerEvent::ApiBound { .. }) => true,
        (RunnerAction::ServeApi { .. }, RunnerEvent::ApiServed { .. }) => true,
        _ => false,
    }
}

/// There is nothing left to do exactly at the end.
/// An event has an effect exactly if it answers the action that was asked for.
/// An answer that the action failed ends the start with that error. Of the
/// other answers only an address that makes no URL ends it with an error.
pub proof fn law_start_goes_by_answers<U, K, C, M, S, N, A, I, L, E>(
    start: RunnerStart<U, K, C, M, S, N, A, I, L, E>,
    event: RunnerEvent<N, A, I, M, L, E>,
)
    requires
        start.wf(),
    ensures
        start.pending() is Finish <==> start.phase is Done,
        start.phase_after(event) == start.phase <==> !answers(start.pending(), event),
        answers(start.pending(), event) ==> match event {
            RunnerEvent::Failed { error } => start.phase_after(event) == (RunnerPhase::Done::<
                N,
                A,
                I,
                M,
                L,
                E,
            > { result: Err(RunnerError::Step { error }) }),
            RunnerEvent::ApiBound { url: Err(message), .. } => start.phase_after(event)
                == (RunnerPhase::Done::<N, A, I, M, L, E> {
                result: Err(RunnerError::InvalidUrl { message }),
            }),
            _ => !(start.phase_after(event) matches RunnerPhase::Done { result: Err(_) }),
        },
{
}

/// A node asks the configured IPFS node for what it misses, five times and a
/// second apart, exactly if one is configured, whatever else is. It is created
/// with the key and the configuration of the hash table that were given.
pub proof fn law_node_uses_the_configured_ipfs_node<U, K, C, M, S, N, A, I, L, E>(
    start: RunnerStart<U, K, C, M, S, N, A, I, L, E>,
)
    requires
        start.phase is NewNode,
    ensures
        start.pending() matches RunnerAction::NewNode { store, key_material, dht_config } && {
            &&& *key_material == start.config.key_material
            &&& *dht_config == start.config.dht_config
            &&& store is Memory <==> start.config.ipfs_api_url is None
            &&& store matches NodeStore::MemoryAndIpfs { api_url, attempts, retry_seconds } ==> {
                &&& start.config.ipfs_api_url == Some(*api_url)
                &&& attempts == 5
                &&& retry_seconds == 1
            }
        },
{
}

/// What is asked for, from the beginning to the end, where nothing fails. The
/// node that was created listens at the configured address if there is one, is
/// told of all configured peers and joins the hash table. If there is an API
/// server and an address for it, that address is bound and the API of the node
/// served there. The runner that comes out has that node and its identity, and
/// the address that it listens at and the API and its URL exactly if it was
/// asked for them.
pub proof fn law_start_takes_these_steps<U, K, C, M, S, N, A, I, L, E>(
    config: RunnerNodeConfig<U, K, C, M, S>,
    has_api_server: bool,
    node: N,
    peer_id: I,
    address: M,
    listener: L,
    url: String,
    thread: A,
)
    ensures
        ({
            let start = RunnerStart::<U, K, C, M, S, N, A, I, L, E> {
                config,
                has_api_server,
                phase: RunnerPhase::NewNode,
            };
            let created = RunnerStart {
                phase: start.phase_after(RunnerEvent::NodeCreated { node, peer_id }),
                ..start
            };
            let reachable = if config.listening_address is Some {
                RunnerStart {
                    phase: created.phase_after(RunnerEvent::Listening { address }),
                    ..start
                }
            } else {
                created
            };
            let known = RunnerStart {
                phase: reachable.phase_after(RunnerEvent::PeersAdded),
                ..start
            };
            let joined = RunnerStart {
                phase: known.phase_after(RunnerEvent::Bootstrapped),
                ..start
            };
            let bound = RunnerStart {
                phase: joined.phase_after(RunnerEvent::ApiBound { listener, url: Ok(url) }),
                ..start
            };
            let serves = has_api_server && config.api_address is Some;
            let last = if serves {
                bound.phase_after(RunnerEvent::ApiServed { thread })
            } else {
                joined.phase
            };
            &&& start.pending() is NewNode
            &&& config.listening_address matches Some(wanted) ==> {
                created.pending() matches RunnerAction::Listen { node: of, address: at } && *of
                    == node && *at == wanted
            }
            &&& reachable.pending() matches RunnerAction::AddPeers { node: of, peers } && *of == node
                && *peers == config.peers
            &&& known.pending() matches RunnerAction::Bootstrap { node: of } && *of == node
            &&& serves ==> {
                &&& joined.pending() matches RunnerAction::BindApi { address: at } && Some(*at)
                    == config.api_address
                &&& bound.pending() matches RunnerAction::ServeApi { node: of, listener: by } && *of
                    == node && *by == listener
            }
            &&& last matches RunnerPhase::Done { result: Ok(runner) } && {
                &&& runner.name_system == node
                &&& runner.peer_id == peer_id
                &&& runner.listening_address == (if config.listening_address is Some {
                    Some(address)
                } else {
                    None
                })
                &&& runner.api_thread == (if serves {
                    Some(thread)
                } else {
                    None
                })
                &&& runner.api_address == (if serves {
                    Some(url)
                } else {
                    None
                })
            }
        }),
{
}

} // verus!
