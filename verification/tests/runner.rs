use noosphere::runner::{
    NameSystemRunner, NodeStore, RunnerAction, RunnerError, RunnerEvent, RunnerNodeConfig,
    RunnerStart,
};

type Start = RunnerStart<
    String,
    u64,
    bool,
    String,
    String,
    &'static str,
    &'static str,
    u8,
    &'static str,
    String,
>;

fn config() -> RunnerNodeConfig<String, u64, bool, String, String> {
    RunnerNodeConfig {
        ipfs_api_url: None,
        key_material: 77,
        dht_config: true,
        listening_address: None,
        peers: vec!["/ip4/10.0.0.2".to_string(), "/ip4/10.0.0.3".to_string()],
        api_address: None,
    }
}

/// Starts a node where every step succeeds, and lists the steps.
fn run(mut start: Start, api_ip: &str) -> (Start, Vec<String>) {
    let mut steps = Vec::new();
    loop {
        let event = match start.action() {
            RunnerAction::NewNode { store, key_material, dht_config } => {
                assert_eq!((*key_material, *dht_config), (77, true));
                steps.push(match store {
                    NodeStore::Memory => "memory".to_string(),
                    NodeStore::MemoryAndIpfs { api_url, attempts, retry_seconds } => {
                        format!("{api_url} {attempts} {retry_seconds}")
                    }
                });
                RunnerEvent::NodeCreated { node: "node", peer_id: 5 }
            }
            RunnerAction::Listen { node, address } => {
                assert_eq!(*node, "node");
                steps.push(format!("listen {address}"));
                RunnerEvent::Listening { address: format!("{address}/tcp/4001") }
            }
            RunnerAction::AddPeers { node, peers } => {
                assert_eq!(*node, "node");
                steps.push(format!("peers {}", peers.len()));
                RunnerEvent::PeersAdded
            }
            RunnerAction::Bootstrap { node } => {
                assert_eq!(*node, "node");
                steps.push("bootstrap".to_string());
                RunnerEvent::Bootstrapped
            }
            RunnerAction::BindApi { address } => {
                steps.push(format!("bind {address}"));
                start = start.api_bound("listener", api_ip, 6667);
                continue;
            }
            RunnerAction::ServeApi { node, listener } => {
                assert_eq!((*node, *listener), ("node", "listener"));
                steps.push("serve".to_string());
                RunnerEvent::ApiServed { thread: "thread" }
            }
            RunnerAction::Finish => break,
        };
        start = start.step(event);
    }
    (start, steps)
}

#[test]
fn node_is_started_with_all_that_was_asked_for() {
    let mut config = config();
    config.ipfs_api_url = Some("http://127.0.0.1:5001".to_string());
    config.listening_address = Some("/ip4/127.0.0.1".to_string());
    config.api_address = Some("127.0.0.1:0".to_string());
    let start: Start = NameSystemRunner::try_from_config(config, true);
    let (start, steps) = run(start, "127.0.0.1");
    assert_eq!(
        steps,
        [
            "http://127.0.0.1:5001 5 1",
            "listen /ip4/127.0.0.1",
            "peers 2",
            "bootstrap",
            "bind 127.0.0.1:0",
            "serve",
        ]
    );
    let runner = start.outcome().unwrap().ok().unwrap();
    assert_eq!(runner.name_system, "node");
    assert_eq!(runner.api_thread, Some("thread"));
    assert_eq!(runner.peer_id, 5);
    assert_eq!(runner.listening_address, Some("/ip4/127.0.0.1/tcp/4001".to_string()));
    assert_eq!(runner.api_address, Some("http://127.0.0.1:6667/".to_string()));
}

#[test]
fn node_listens_and_serves_only_if_asked_to() {
    let start: Start = NameSystemRunner::try_from_config(config(), true);
    let (start, steps) = run(start, "127.0.0.1");
    assert_eq!(steps, ["memory", "peers 2", "bootstrap"]);
    let runner = start.outcome().unwrap().ok().unwrap();
    assert_eq!(runner.api_thread, None);
    assert_eq!(runner.listening_address, None);
    assert_eq!(runner.api_address, None);
}

#[test]
fn node_without_an_api_server_serves_nothing() {
    let mut config = config();
    config.api_address = Some("127.0.0.1:0".to_string());
    let start: Start = NameSystemRunner::try_from_config(config, false);
    let (start, steps) = run(start, "127.0.0.1");
    assert_eq!(steps, ["memory", "peers 2", "bootstrap"]);
    let runner = start.outcome().unwrap().ok().unwrap();
    assert_eq!(runner.api_thread, None);
    assert_eq!(runner.api_address, None);
}

#[test]
fn api_address_that_makes_no_url_ends_the_start() {
    let mut config = config();
    config.api_address = Some("[::1]:0".to_string());
    let start: Start = NameSystemRunner::try_from_config(config, true);
    let (start, steps) = run(start, "::1");
    assert_eq!(steps.last().unwrap(), "bind [::1]:0");
    let error = url::Url::parse("http://::1:6667").unwrap_err().to_string();
    match start.outcome().unwrap() {
        Err(RunnerError::InvalidUrl { message }) => assert_eq!(message, error),
        _ => panic!("no error"),
    }
}

#[test]
fn failed_step_ends_the_start() {
    let start: Start = NameSystemRunner::try_from_config(config(), true);
    let start = start
        .step(RunnerEvent::NodeCreated { node: "node", peer_id: 5 })
        .step(RunnerEvent::Bootstrapped)
        .step(RunnerEvent::PeersAdded)
        .step(RunnerEvent::Failed { error: "no peers".to_string() })
        .step(RunnerEvent::Bootstrapped);
    match start.outcome() {
        Some(Err(RunnerError::Step { error })) => assert_eq!(error, "no peers"),
        _ => panic!("no error"),
    }
}

#[test]
fn bound_listener_counts_only_when_one_is_wanted() {
    let start: Start = NameSystemRunner::try_from_config(config(), true);
    let start = start.api_bound("listener", "127.0.0.1", 6667);
    assert!(matches!(start.action(), RunnerAction::NewNode { .. }));
    assert!(start.outcome().is_none());
}
