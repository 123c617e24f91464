//! Starting a node of the name system, and a server for its API.

use vstd::prelude::*;

use crate::address::socket_addr_to_url;

verus! {

/// How often a block is asked for before the node gives it up.
pub const RETRIEVAL_ATTEMPTS: u32 = 5;

/// How long the node waits between two attempts.
pub const RETRY_SECONDS: u64 = 1;

/// How a node is to be started. `U` is the type of URLs, `K` that of keys, `C`
/// that of configurations of the hash table, `M` that of addresses in the peer
/// to peer network, `S` that of socket addresses.
pub struct RunnerNodeConfig<U, K, C, M, S> {
    /// The IPFS node that blocks can be had from.
    pub ipfs_api_url: Option<U>,
    pub key_material: K,
    pub dht_config: C,
    /// Where to listen for peers.
    pub listening_address: Option<M>,
    pub peers: Vec<M>,
    /// Where to serve the API.
    pub api_address: Option<S>,
}

/// Where a node keeps its blocks.
pub enum NodeStore<'a, U> {
    /// In memory alone.
    Memory,
    /// In memory, and what is missing there is asked of an IPFS node.
    MemoryAndIpfs { api_url: &'a U, attempts: u32, retry_seconds: u64 },
}

/// A node of the name system that is running. `N` is the type of nodes, `A`
/// that of API servers, `I` that of the identities of peers.
pub struct NameSystemRunner<N, A, I, M> {
    pub name_system: N,
    pub api_thread: Option<A>,
    pub peer_id: I,
    pub listening_address: Option<M>,
    /// The URL of the API.
    pub api_address: Option<String>,
}

/// Why a node could not be started.
#[derive(Debug)]
pub enum RunnerError<E> {
    /// The address of the API makes no URL.
    InvalidUrl { message: String },
    /// A step failed.
    Step { error: E },
}

/// A node that has been created.
pub struct StartedNode<N, I, M> {
    pub node: N,
    pub peer_id: I,
    pub listening_address: Option<M>,
}

/// Where the start of a node stands. `L` is the type of listeners.
pub enum RunnerPhase<N, A, I, M, L, E> {
    /// The node is to be created.
    NewNode,
    /// The node is to listen for peers.
    Listen { node: N, peer_id: I },
    /// The peers are to be made known to the node.
    AddPeers { started: StartedNode<N, I, M> },
    /// The node is to join the hash table.
    Bootstrap { started: StartedNode<N, I, M> },
    /// The address of the API is to be bound.
    BindApi { started: StartedNode<N, I, M> },
    /// The API is to be served.
    ServeApi { started: StartedNode<N, I, M>, listener: L, url: String },
    /// The node is running, or could not be started.
    Done { result: Result<NameSystemRunner<N, A, I, M>, RunnerError<E>> },
}

/// What has to be done next.
pub enum RunnerAction<'a, U, K, C, M, S, N, L> {
    /// Create a node.
    NewNode { store: NodeStore<'a, U>, key_material: &'a K, dht_config: &'a C },
    /// Listen at an address, of which the port may be left open.
    Listen { node: &'a N, address: &'a M },
    /// Make the peers known to the node.
    AddPeers { node: &'a N, peers: &'a Vec<M> },
    /// Join the hash table.
    Bootstrap { node: &'a N },
    /// Bind a listener, and look up the address that it got.
    BindApi { address: &'a S },
    /// Serve the API of the node.
    ServeApi { node: &'a N, listener: &'a L },
    /// Nothing is left to do: see [`RunnerStart::outcome`].
    Finish,
}

/// What came of an action.
pub enum RunnerEvent<N, A, I, M, L, E> {
    NodeCreated { node: N, peer_id: I },
    /// The node listens, at an address with its port filled in.
    Listening { address: M },
    PeersAdded,
    Bootstrapped,
    /// A listener was bound; `url` is what its address makes as a URL, or the
    /// error that it gives.
    ApiBound { listener: L, url: Result<String, String> },
    ApiServed { thread: A },
    /// The action did not succeed.
    Failed { error: E },
}

/// The start of a node.
pub struct RunnerStart<U, K, C, M, S, N, A, I, L, E> {
    pub config: RunnerNodeConfig<U, K, C, M, S>,
    /// Whether an API is served at all.
    pub has_api_server: bool,
    pub phase: RunnerPhase<N, A, I, M, L, E>,
}

impl<N, A, I, M> NameSystemRunner<N, A, I, M> {
    /// Starts a node as `config` says.
    pub fn try_from_config<U, K, C, S, L, E>(
        config: RunnerNodeConfig<U, K, C, M, S>,
        has_api_server: bool,
    ) -> (start: RunnerStart<U, K, C, M, S, N, A, I, L, E>)
        ensures
            start.config == config,
            start.has_api_server == has_api_server,
            start.phase == RunnerPhase::<N, A, I, M, L, E>::NewNode,
    {
        RunnerStart { config, has_api_server, phase: RunnerPhase::NewNode }
    }
}

/// A running node that serves no API.
pub open spec fn without_api<N, A, I, M>(
    started: StartedNode<N, I, M>,
) -> NameSystemRunner<N, A, I, M> {
    NameSystemRunner {
        name_system: started.node,
        api_thread: None,
        peer_id: started.peer_id,
        listening_address: started.listening_address,
        api_address: None,
    }
}

/// A running node that serves its API.
pub open spec fn with_api<N, A, I, M>(
    started: StartedNode<N, I, M>,
    thread: A,
    url: String,
) -> NameSystemRunner<N, A, I, M> {
    NameSystemRunner {
        name_system: started.node,
        api_thread: Some(thread),
        peer_id: started.peer_id,
        listening_address: started.listening_address,
        api_address: Some(url),
    }
}

impl<U, K, C, M, S, N, A, I, L, E> RunnerStart<U, K, C, M, S, N, A, I, L, E> {
    /// Whether the API of the node is to be served.
    pub open spec fn serves_api(self) -> bool {
        self.has_api_server && self.config.api_address is Some
    }

    /// The phase that follows once the pending action has led to `event`; the
    /// same phase where `event` is no answer to that action.
    pub open spec fn phase_after(
        self,
        event: RunnerEvent<N, A, I, M, L, E>,
    ) -> RunnerPhase<N, A, I, M, L, E> {
        match (self.phase, event) {
            (RunnerPhase::NewNode, RunnerEvent::NodeCreated { node, peer_id }) =>
                if self.config.listening_address is Some {
                    RunnerPhase::Listen { node, peer_id }
                } else {
                    RunnerPhase::AddPeers {
                        started: StartedNode { node, peer_id, listening_address: None },
                    }
                },
            (RunnerPhase::Listen { node, peer_id }, RunnerEvent::Listening { address }) =>
                RunnerPhase::AddPeers {
                    started: StartedNode { node, peer_id, listening_address: Some(address) },
                },
            (RunnerPhase::AddPeers { started }, RunnerEvent::PeersAdded) =>
                RunnerPhase::Bootstrap { started },
            (RunnerPhase::Bootstrap { started }, RunnerEvent::Bootstrapped) =>
                if self.serves_api() {
                    RunnerPhase::BindApi { started }
                } else {
                    RunnerPhase::Done { result: Ok(without_api(started)) }
                },
            (RunnerPhase::BindApi { started }, RunnerEvent::ApiBound { listener, url }) =>
                match url {
                    Ok(url) => RunnerPhase::ServeApi { started, listener, url },
                    Err(message) => RunnerPhase::Done {
                        result: Err(RunnerError::InvalidUrl { message }),
                    },
                },
            (RunnerPhase::ServeApi { started, url, .. }, RunnerEvent::ApiServed { thread }) =>
                RunnerPhase::Done { result: Ok(with_api(started, thread, url)) },
            (RunnerPhase::Done { .. }, _) => self.phase,
            (_, RunnerEvent::Failed { error }) => RunnerPhase::Done {
                result: Err(RunnerError::Step { error }),
            },
            _ => self.phase,
        }
    }

    /// Where the node keeps its blocks.
    pub open spec fn node_store(&self) -> NodeStore<'_, U> {
        match &self.config.ipfs_api_url {
            Some(api_url) => NodeStore::MemoryAndIpfs {
                api_url,
                attempts: RETRIEVAL_ATTEMPTS,
                retry_seconds: RETRY_SECONDS,
            },
            None => NodeStore::Memory,
        }
    }

    /// What has to be done next.
    pub open spec fn pending(&self) -> RunnerAction<'_, U, K, C, M, S, N, L> {
        match &self.phase {
            RunnerPhase::NewNode => RunnerAction::NewNode {
                store: self.node_store(),
                key_material: &self.config.key_material,
                dht_config: &self.config.dht_config,
            },
            RunnerPhase::Listen { node, .. } => match &self.config.listening_address {
                Some(address) => RunnerAction::Listen { node, address },
                None => RunnerAction::Finish,
            },
            RunnerPhase::AddPeers { started } => RunnerAction::AddPeers {
                node: &started.node,
                peers: &self.config.peers,
            },
            RunnerPhase::Bootstrap { started } => RunnerAction::Bootstrap { node: &started.node },
            RunnerPhase::BindApi { .. } => match &self.config.api_address {
                Some(address) => RunnerAction::BindApi { address },
                None => RunnerAction::Finish,
            },
            RunnerPhase::ServeApi { started, listener, .. } => RunnerAction::ServeApi {
                node: &started.node,
                listener,
            },
            RunnerPhase::Done { .. } => RunnerAction::Finish,
        }
    }

    /// Whether the start can have come about: it listens only if it was asked
    /// to, and serves an API only if there is one to serve and it was asked to.
    pub open spec fn wf(self) -> bool {
        match self.phase {
            RunnerPhase::Listen { .. } => self.config.listening_address is Some,
            RunnerPhase::BindApi { .. } => self.serves_api(),
            RunnerPhase::ServeApi { .. } => self.serves_api(),
            _ => true,
        }
    }

    /// What has to be done next.
    pub fn action(&self) -> (action: RunnerAction<'_, U, K, C, M, S, N, L>)
        ensures
            action == self.pending(),
    {
        match &self.phase {
            RunnerPhase::NewNode => {
                let store = match &self.config.ipfs_api_url {
                    Some(api_url) => NodeStore::MemoryAndIpfs {
                        api_url,
                        attempts: RETRIEVAL_ATTEMPTS,
                        retry_seconds: RETRY_SECONDS,
                    },
                    None => NodeStore::Memory,
                };
                RunnerAction::NewNode {
                    store,
                    key_material: &self.config.key_material,
                    dht_config: &self.config.dht_config,
                }
            },
            RunnerPhase::Listen { node, .. } => match &self.config.listening_address {
                Some(address) => RunnerAction::Listen { node, address },
                None => RunnerAction::Finish,
            },
            RunnerPhase::AddPeers { started } => RunnerAction::AddPeers {
                node: &started.node,
                peers: &self.config.peers,
            },
            RunnerPhase::Bootstrap { started } => RunnerAction::Bootstrap { node: &started.node },
            RunnerPhase::BindApi { .. } => match &self.config.api_address {
                Some(address) => RunnerAction::BindApi { address },
                None => RunnerAction::Finish,
            },
            RunnerPhase::ServeApi { started, listener, .. } => RunnerAction::ServeApi {
                node: &started.node,
                listener,
            },
            RunnerPhase::Done { .. } => RunnerAction::Finish,
        }
    }

    /// Takes in what came of the pending action. An event that is no answer
    /// to that action changes nothing.
    pub fn step(self, event: RunnerEvent<N, A, I, M, L, E>) -> (start: Self)
        ensures
            start.config == self.config,
            start.has_api_server == self.has_api_server,
            start.phase == self.phase_after(event),
            self.wf() ==> start.wf(),
    {
        let RunnerStart { config, has_api_server, phase } = self;
        let phase = match (phase, event) {
            (RunnerPhase::NewNode, RunnerEvent::NodeCreated { node, peer_id }) =>
                if config.listening_address.is_some() {
                    RunnerPhase::Listen { node, peer_id }
                } else {
                    RunnerPhase::AddPeers {
                        started: StartedNode { node, peer_id, listening_address: None },
                    }
                },
            (RunnerPhase::Listen { node, peer_id }, RunnerEvent::Listening { address }) =>
                RunnerPhase::AddPeers {
                    started: StartedNode { node, peer_id, listening_address: Some(address) },
                },
            (RunnerPhase::AddPeers { started }, RunnerEvent::PeersAdded) =>
                RunnerPhase::Bootstrap { started },
            (RunnerPhase::Bootstrap { started }, RunnerEvent::Bootstrapped) =>
                if has_api_server && config.api_address.is_some() {
                    RunnerPhase::BindApi { started }
                } else {
                    RunnerPhase::Done {
                        result: Ok(
                            NameSystemRunner {
                                name_system: started.node,
                                api_thread: None,
                                peer_id: started.peer_id,
                                listening_address: started.listening_address,
                                api_address: None,
                            },
                        ),
                    }
                },
            (RunnerPhase::BindApi { started }, RunnerEvent::ApiBound { listener, url }) =>
                match url {
                    Ok(url) => RunnerPhase::ServeApi { started, listener, url },
                    Err(message) => RunnerPhase::Done {
                        result: Err(RunnerError::InvalidUrl { message }),
                    },
                },
            (RunnerPhase::ServeApi { started, url, .. }, RunnerEvent::ApiServed { thread }) =>
                RunnerPhase::Done {
                    result: Ok(
                        NameSystemRunner {
                            name_system: started.node,
                            api_thread: Some(thread),
                            peer_id: started.peer_id,
                            listening_address: started.listening_address,
                            api_address: Some(url),
                        },
                    ),
                },
            (RunnerPhase::Done { result }, _) => RunnerPhase::Done { result },
            (_, RunnerEvent::Failed { error }) => RunnerPhase::Done {
                result: Err(RunnerError::Step { error }),
            },
            (phase, _) => phase,
        };
        RunnerStart { config, has_api_server, phase }
    }

    /// Takes in that a listener was bound for the API, at an address with the
    /// given IP address and port.
    pub fn api_bound(self, listener: L, ip: &str, port: u16) -> (start: Self)
        ensures
            start.config == self.config,
            start.has_api_server == self.has_api_server,
            exists|url: Result<String, String>|
                #![trigger crate::address::texts_of(url)]
                crate::address::texts_of(url) == crate::address::url_parsed(
                    crate::address::socket_text(ip@, port),
                ) && start.phase == self.phase_after(RunnerEvent::ApiBound { listener, url }),
            self.wf() ==> start.wf(),
    {
        let url: Result<String, String> = socket_addr_to_url(ip, port);
        assert(crate::address::texts_of(url) == crate::address::url_parsed(
            crate::address::socket_text(ip@, port),
        ));
        self.step(RunnerEvent::ApiBound { listener, url })
    }

    /// How the start ended; `None` while it goes on.
    pub fn outcome(self) -> (outcome: Option<
        Result<NameSystemRunner<N, A, I, M>, RunnerError<E>>,
    >)
        ensures
            match self.phase {
                RunnerPhase::Done { result } => outcome == Some(result),
                _ => outcome is None,
            },
    {
        match self.phase {
            RunnerPhase::Done { result } => Some(result),
            _ => None,
        }
    }
}

} // verus!
