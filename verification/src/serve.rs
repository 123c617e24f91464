//! Starting a gateway server.

use vstd::prelude::*;

verus! {

/// Who a gateway serves. `D` is the type of identities.
pub struct GatewayScope<D> {
    /// The sphere of the gateway.
    pub identity: D,
    /// The sphere that the gateway works for.
    pub counterpart: D,
}

/// How a gateway is to be reached and what it depends on. `I` is the type of
/// network interfaces, `U` that of URLs, `T` that of tickets.
pub struct ServeRequest<I, U, T> {
    pub interface: I,
    pub port: u16,
    pub ipfs_api: U,
    pub iroh_ticket: T,
    pub name_resolver_api: U,
    pub cors_origin: Option<U>,
}

/// Where the start of a gateway stands. `L` is the type of listeners, `X` that
/// of sphere contexts.
pub enum ServePhase<L, D, X, E> {
    /// The workspace is to be checked for a sphere.
    EnsureInitialized,
    /// The address is to be bound.
    Bind,
    /// The identity of the counterpart sphere is to be looked up.
    CounterpartIdentity { listener: L },
    /// The identity of the sphere of the gateway is to be looked up.
    SphereIdentity { listener: L, counterpart: D },
    /// The context of the sphere of the gateway is to be had.
    SphereContext { listener: L, scope: GatewayScope<D> },
    /// The gateway is to be started.
    StartGateway { listener: L, scope: GatewayScope<D>, context: X },
    /// The gateway has run, or could not be started.
    Done { result: Result<(), E> },
}

/// What has to be done next.
pub enum ServeAction<'a, I, U, T, L, D, X> {
    /// Make sure that there is a sphere in the workspace.
    EnsureInitialized,
    /// Bind a listener.
    Bind { interface: &'a I, port: u16 },
    /// Look up the counterpart sphere of the workspace.
    CounterpartIdentity,
    /// Look up the sphere of the workspace.
    SphereIdentity,
    /// Come by the context of the sphere of the workspace.
    SphereContext,
    /// Start the gateway, and run it.
    StartGateway {
        listener: &'a L,
        scope: &'a GatewayScope<D>,
        context: &'a X,
        ipfs_api: &'a U,
        iroh_ticket: &'a T,
        name_resolver_api: &'a U,
        cors_origin: &'a Option<U>,
    },
    /// Nothing is left to do: see [`Serve::outcome`].
    Finish,
}

/// What came of an action.
pub enum ServeEvent<L, D, X, E> {
    Initialized,
    Bound { listener: L },
    Identified { identity: D },
    Context { context: X },
    /// The gateway has run to its end.
    GatewayEnded,
    /// The action did not succeed.
    Failed { error: E },
}

/// The start of a gateway.
pub struct Serve<I, U, T, L, D, X, E> {
    pub request: ServeRequest<I, U, T>,
    pub phase: ServePhase<L, D, X, E>,
}

/// Starts a gateway server.
pub fn serve<I, U, T, L, D, X, E>(request: ServeRequest<I, U, T>) -> (serve: Serve<I, U, T, L, D, X, E>)
    ensures
        serve.request == request,
        serve.phase == ServePhase::<L, D, X, E>::EnsureInitialized,
{
    Serve { request, phase: ServePhase::EnsureInitialized }
}

impl<I, U, T, L, D, X, E> Serve<I, U, T, L, D, X, E> {
    /// The phase that follows once the pending action has led to `event`; the
    /// same phase where `event` is no answer to that action.
    pub open spec fn phase_after(self, event: ServeEvent<L, D, X, E>) -> ServePhase<L, D, X, E> {
        match (self.phase, event) {
            (ServePhase::EnsureInitialized, ServeEvent::Initialized) => ServePhase::Bind,
            (ServePhase::Bind, ServeEvent::Bound { listener }) =>
                ServePhase::CounterpartIdentity { listener },
            (ServePhase::CounterpartIdentity { listener }, ServeEvent::Identified { identity }) =>
                ServePhase::SphereIdentity { listener, counterpart: identity },
            (ServePhase::SphereIdentity { listener, counterpart }, ServeEvent::Identified { identity }) =>
                ServePhase::SphereContext {
                    listener,
                    scope: GatewayScope { identity, counterpart },
                },
            (ServePhase::SphereContext { listener, scope }, ServeEvent::Context { context }) =>
                ServePhase::StartGateway { listener, scope, context },
            (ServePhase::StartGateway { .. }, ServeEvent::GatewayEnded) =>
                ServePhase::Done { result: Ok(()) },
            (ServePhase::Done { .. }, _) => self.phase,
            (_, ServeEvent::Failed { error }) => ServePhase::Done { result: Err(error) },
            _ => self.phase,
        }
    }

    /// What has to be done next.
    pub open spec fn pending(&self) -> ServeAction<'_, I, U, T, L, D, X> {
        match &self.phase {
            ServePhase::EnsureInitialized => ServeAction::EnsureInitialized,
            ServePhase::Bind => ServeAction::Bind {
                interface: &self.request.interface,
                port: self.request.port,
            },
            ServePhase::CounterpartIdentity { .. } => ServeAction::CounterpartIdentity,
            ServePhase::SphereIdentity { .. } => ServeAction::SphereIdentity,
            ServePhase::SphereContext { .. } => ServeAction::SphereContext,
            ServePhase::StartGateway { listener, scope, context } => ServeAction::StartGateway {
                listener,
                scope,
                context,
                ipfs_api: &self.request.ipfs_api,
                iroh_ticket: &self.request.iroh_ticket,
                name_resolver_api: &self.request.name_resolver_api,
                cors_origin: &self.request.cors_origin,
            },
            ServePhase::Done { .. } => ServeAction::Finish,
        }
    }

    /// What has to be done next.
    pub fn action(&self) -> (action: ServeAction<'_, I, U, T, L, D, X>)
        ensures
            action == self.pending(),
    {
        match &self.phase {
            ServePhase::EnsureInitialized => ServeAction::EnsureInitialized,
            ServePhase::Bind => ServeAction::Bind {
                interface: &self.request.interface,
                port: self.request.port,
            },
            ServePhase::CounterpartIdentity { .. } => ServeAction::CounterpartIdentity,
            ServePhase::SphereIdentity { .. } => ServeAction::SphereIdentity,
            ServePhase::SphereContext { .. } => ServeAction::SphereContext,
            ServePhase::StartGateway { listener, scope, context } => ServeAction::StartGateway {
                listener,
                scope,
                context,
                ipfs_api: &self.request.ipfs_api,
                iroh_ticket: &self.request.iroh_ticket,
                name_resolver_api: &self.request.name_resolver_api,
                cors_origin: &self.request.cors_origin,
            },
            ServePhase::Done { .. } => ServeAction::Finish,
        }
    }

    /// Takes in what came of the pending action. An event that is no answer
    /// to that action changes nothing.
    pub fn step(self, event: ServeEvent<L, D, X, E>) -> (serve: Self)
        ensures
            serve.request == self.request,
            serve.phase == self.phase_after(event),
    {
        let Serve { request, phase } = self;
        let phase = match (phase, event) {
            (ServePhase::EnsureInitialized, ServeEvent::Initialized) => ServePhase::Bind,
            (ServePhase::Bind, ServeEvent::Bound { listener }) =>
                ServePhase::CounterpartIdentity { listener },
            (ServePhase::CounterpartIdentity { listener }, ServeEvent::Identified { identity }) =>
                ServePhase::SphereIdentity { listener, counterpart: identity },
            (ServePhase::SphereIdentity { listener, counterpart }, ServeEvent::Identified { identity }) =>
                ServePhase::SphereContext {
                    listener,
                    scope: GatewayScope { identity, counterpart },
                },
            (ServePhase::SphereContext { listener, scope }, ServeEvent::Context { context }) =>
                ServePhase::StartGateway { listener, scope, context },
            (ServePhase::StartGateway { .. }, ServeEvent::GatewayEnded) =>
                ServePhase::Done { result: Ok(()) },
            (ServePhase::Done { result }, _) => ServePhase::Done { result },
            (_, ServeEvent::Failed { error }) => ServePhase::Done { result: Err(error) },
            (phase, _) => phase,
        };
        Serve { request, phase }
    }

    /// How the gateway ended; `None` while it is starting or running.
    pub fn outcome(self) -> (outcome: Option<Result<(), E>>)
        ensures
            match self.phase {
                ServePhase::Done { result } => outcome == Some(result),
                _ => outcome is None,
            },
    {
        match self.phase {
            ServePhase::Done { result } => Some(result),
            _ => None,
        }
    }
}

/// The start of a gateway from its beginning through `events`.
pub open spec fn serve_through<I, U, T, L, D, X, E>(
    request: ServeRequest<I, U, T>,
    events: Seq<ServeEvent<L, D, X, E>>,
) -> Serve<I, U, T, L, D, X, E>
    decreases events.len(),
{
    if events.len() == 0 {
        Serve { request, phase: ServePhase::EnsureInitialized }
    } else {
        let before = serve_through(request, events.drop_last());
        Serve { request, phase: before.phase_after(events.last()) }
    }
}

/// Those of `events` that had an effect, in this order.
pub open spec fn serve_answers<I, U, T, L, D, X, E>(
    request: ServeRequest<I, U, T>,
    events: Seq<ServeEvent<L, D, X, E>>,
) -> Seq<ServeEvent<L, D, X, E>>
    decreases events.len(),
{
    if events.len() == 0 {
        Seq::empty()
    } else {
        let earlier = serve_answers(request, events.drop_last());
        let before = serve_through(request, events.drop_last());
        if before.phase_after(events.last()) == before.phase {
            earlier
        } else {
            earlier.push(events.last())
        }
    }
}

/// What has to happen before a gateway is started.
pub open spec fn preparations<L, D, X, E>(
    listener: L,
    scope: GatewayScope<D>,
    context: X,
) -> Seq<ServeEvent<L, D, X, E>> {
    seq![
        ServeEvent::Initialized,
        ServeEvent::Bound { listener },
        ServeEvent::Identified { identity: scope.counterpart },
        ServeEvent::Identified { identity: scope.identity },
        ServeEvent::Context { context },
    ]
}

proof fn lemma_serve_is_orderly<I, U, T, L, D, X, E>(
    request: ServeRequest<I, U, T>,
    events: Seq<ServeEvent<L, D, X, E>>,
)
    ensures
        serve_through(request, events).request == request,
        match serve_through(request, events).phase {
            ServePhase::EnsureInitialized => serve_answers(request, events) == Seq::<
                ServeEvent<L, D, X, E>,
            >::empty(),
            ServePhase::Bind => serve_answers(request, events) == seq![
                ServeEvent::<L, D, X, E>::Initialized,
            ],
            ServePhase::CounterpartIdentity { listener } => serve_answers(request, events) == seq![
                ServeEvent::<L, D, X, E>::Initialized,
                ServeEvent::Bound { listener },
            ],
            ServePhase::SphereIdentity { listener, counterpart } => serve_answers(request, events)
                == seq![
                ServeEvent::<L, D, X, E>::Initialized,
                ServeEvent::Bound { listener },
                ServeEvent::Identified { identity: counterpart },
            ],
            ServePhase::SphereContext { listener, scope } => serve_answers(request, events)
                == seq![
                ServeEvent::<L, D, X, E>::Initialized,
                ServeEvent::Bound { listener },
                ServeEvent::Identified { identity: scope.counterpart },
                ServeEvent::Identified { identity: scope.identity },
            ],
            ServePhase::StartGateway { listener, scope, context } => serve_answers(request, events)
                == preparations::<L, D, X, E>(listener, scope, context),
            ServePhase::Done { result: Ok(_) } => exists|
                listener: L,
                scope: GatewayScope<D>,
                context: X,
            |
                serve_answers(request, events) == (#[trigger] preparations::<L, D, X, E>(
                    listener,
                    scope,
                    context,
                )).push(ServeEvent::GatewayEnded),
            ServePhase::Done { result: Err(_) } => true,
        },
    decreases events.len(),
{
    if events.len() > 0 {
        lemma_serve_is_orderly(request, events.drop_last());
    }
}

/// A gateway is started only once there is a sphere in the workspace and an
/// address is bound, and then for that sphere and its counterpart, with the
/// context of that sphere and the listener that was bound.
pub proof fn law_gateway_serves_the_workspace<I, U, T, L, D, X, E>(
    request: ServeRequest<I, U, T>,
    events: Seq<ServeEvent<L, D, X, E>>,
)
    ensures
        serve_through(request, events).request == request,
        serve_through(request, events).phase matches ServePhase::StartGateway {
            listener,
            scope,
            context,
        } ==> serve_answers(request, events) == preparations::<L, D, X, E>(
            listener,
            scope,
            context,
        ),
{
    lemma_serve_is_orderly(request, events);
}

/// Serving succeeds only if a gateway was started and has run to its end.
pub proof fn law_serving_succeeds_after_the_gateway<I, U, T, L, D, X, E>(
    request: ServeRequest<I, U, T>,
    events: Seq<ServeEvent<L, D, X, E>>,
)
    requires
        serve_through(request, events).phase matches ServePhase::Done { result } && result is Ok,
    ensures
        exists|listener: L, scope: GatewayScope<D>, context: X|
            serve_answers(request, events) == (#[trigger] preparations::<L, D, X, E>(
                listener,
                scope,
                context,
            )).push(ServeEvent::GatewayEnded),
{
    lemma_serve_is_orderly(request, events);
}

/// Whether `event` is an answer to `action`.
pub open spec fn answers<I, U, T, L, D, X, E>(
    action: ServeAction<'_, I, U, T, L, D, X>,
    event: ServeEvent<L, D, X, E>,
) -> bool {
    match (action, event) {
        (ServeAction::Finish, _) => false,
        (_, ServeEvent::Failed { .. }) => true,
        (ServeAction::EnsureInitialized, ServeEvent::Initialized) => true,
        (ServeAction::Bind { .. }, ServeEvent::Bound { .. }) => true,
        (ServeAction::CounterpartIdentity, ServeEvent::Identified { .. }) => true,
        (ServeAction::SphereIdentity, ServeEvent::Identified { .. }) => true,
        (ServeAction::SphereContext, ServeEvent::Context { .. }) => true,
        (ServeAction::StartGateway { .. }, ServeEvent::GatewayEnded) => true,
        _ => false,
    }
}

/// There is nothing left to do exactly at the end.
/// An event has an effect exactly if it answers the action that was asked for.
/// An answer that the action failed ends the serving with that error, and no
/// other answer ends it with an error.
pub proof fn law_serving_goes_by_answers<I, U, T, L, D, X, E>(
    serve: Serve<I, U, T, L, D, X, E>,
    event: ServeEvent<L, D, X, E>,
)
    ensures
        serve.pending() is Finish <==> serve.phase is Done,
        serve.phase_after(event) == serve.phase <==> !answers(serve.pending(), event),
        answers(serve.pending(), event) ==> match event {
            ServeEvent::Failed { error } => serve.phase_after(event) == (ServePhase::Done::<
                L,
                D,
                X,
                E,
            > { result: Err(error) }),
            _ => !(serve.phase_after(event) matches ServePhase::Done { result: Err(_) }),
        },
{
}

/// What is asked for, from the beginning to the end, where nothing fails: the
/// workspace is checked, the interface and the port of the request are bound,
/// the two spheres and the context are looked up, and the gateway is started
/// with what was bound and looked up and with all that the request names. The
/// first identity is that of the counterpart.
pub proof fn law_serving_takes_these_steps<I, U, T, L, D, X, E>(
    request: ServeRequest<I, U, T>,
    listener: L,
    counterpart: D,
    identity: D,
    context: X,
)
    ensures
        ({
            let start = Serve::<I, U, T, L, D, X, E> {
                request,
                phase: ServePhase::EnsureInitialized,
            };
            let initialized = Serve { phase: start.phase_after(ServeEvent::Initialized), ..start };
            let bound = Serve {
                phase: initialized.phase_after(ServeEvent::Bound { listener }),
                ..start
            };
            let half = Serve {
                phase: bound.phase_after(ServeEvent::Identified { identity: counterpart }),
                ..start
            };
            let identified = Serve {
                phase: half.phase_after(ServeEvent::Identified { identity }),
                ..start
            };
            let ready = Serve {
                phase: identified.phase_after(ServeEvent::Context { context }),
                ..start
            };
            &&& start.pending() is EnsureInitialized
            &&& initialized.pending() matches ServeAction::Bind { interface, port } && {
                &&& *interface == request.interface
                &&& port == request.port
            }
            &&& bound.pending() is CounterpartIdentity
            &&& half.pending() is SphereIdentity
            &&& identified.pending() is SphereContext
            &&& ready.pending() matches ServeAction::StartGateway {
                listener: with,
                scope,
                context: within,
                ipfs_api,
                iroh_ticket,
                name_resolver_api,
                cors_origin,
            } && {
                &&& *with == listener
                &&& scope.identity == identity
                &&& scope.counterpart == counterpart
                &&& *within == context
                &&& *ipfs_api == request.ipfs_api
                &&& *iroh_ticket == request.iroh_ticket
                &&& *name_resolver_api == request.name_resolver_api
                &&& *cors_origin == request.cors_origin
            }
            &&& ready.phase_after(ServeEvent::GatewayEnded) == (ServePhase::Done::<L, D, X, E> {
                result: Ok(()),
            })
        }),
{
}

} // verus!
