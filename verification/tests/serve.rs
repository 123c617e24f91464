use noosphere::serve::{serve, Serve, ServeAction, ServeEvent, ServeRequest};

type Start = Serve<u8, &'static str, u32, &'static str, &'static str, &'static str, u16>;

fn request() -> ServeRequest<u8, &'static str, u32> {
    ServeRequest {
        interface: 127,
        port: 4433,
        ipfs_api: "http://127.0.0.1:5001",
        iroh_ticket: 9,
        name_resolver_api: "http://127.0.0.1:6667",
        cors_origin: Some("http://example.com"),
    }
}

#[test]
fn gateway_serves_the_workspace() {
    let start: Start = serve(request());
    assert!(matches!(start.action(), ServeAction::EnsureInitialized));
    let start = start.step(ServeEvent::Initialized);
    assert!(matches!(start.action(), ServeAction::Bind { interface: 127, port: 4433 }));
    let start = start.step(ServeEvent::Bound { listener: "listener" });
    assert!(matches!(start.action(), ServeAction::CounterpartIdentity));
    let start = start.step(ServeEvent::Identified { identity: "counterpart" });
    assert!(matches!(start.action(), ServeAction::SphereIdentity));
    let start = start.step(ServeEvent::Identified { identity: "sphere" });
    assert!(matches!(start.action(), ServeAction::SphereContext));
    let start = start.step(ServeEvent::Context { context: "context" });
    match start.action() {
        ServeAction::StartGateway {
            listener,
            scope,
            context,
            ipfs_api,
            iroh_ticket,
            name_resolver_api,
            cors_origin,
        } => {
            assert_eq!(*listener, "listener");
            assert_eq!(scope.identity, "sphere");
            assert_eq!(scope.counterpart, "counterpart");
            assert_eq!(*context, "context");
            assert_eq!(*ipfs_api, "http://127.0.0.1:5001");
            assert_eq!(*iroh_ticket, 9);
            assert_eq!(*name_resolver_api, "http://127.0.0.1:6667");
            assert_eq!(*cors_origin, Some("http://example.com"));
        }
        _ => panic!("no gateway"),
    }
    let start = start.step(ServeEvent::GatewayEnded);
    assert_eq!(start.outcome(), Some(Ok(())));
}

#[test]
fn nothing_is_bound_without_a_sphere() {
    let start: Start = serve(request());
    let start = start
        .step(ServeEvent::Bound { listener: "listener" })
        .step(ServeEvent::Failed { error: 1 })
        .step(ServeEvent::Initialized);
    assert!(matches!(start.action(), ServeAction::Finish));
    assert_eq!(start.outcome(), Some(Err(1)));
}

#[test]
fn serving_succeeds_only_after_the_gateway() {
    let start: Start = serve(request());
    let start = start.step(ServeEvent::Initialized).step(ServeEvent::GatewayEnded);
    assert!(start.outcome().is_none());
}
