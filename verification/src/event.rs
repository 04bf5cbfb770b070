//! Module events, transport events and the envelope that both fold into.
use crate::address::ListenAddress;
use crate::role::{role_activates, Module, Role};
use vstd::prelude::*;

verus! {

/// The outside type `libp2p::ping::Event`: carried through, never looked into.
#[verifier::external_type_specification]
#[verifier::external_body]
pub struct ExPingEvent(libp2p::ping::Event);

/// The outside type `libp2p::identify::Event`: carried through, never looked into.
#[verifier::external_type_specification]
#[verifier::external_body]
pub struct ExIdentifyEvent(libp2p::identify::Event);

/// The outside type `libp2p::mdns::Event`: carried through, never looked into.
#[verifier::external_type_specification]
#[verifier::external_body]
pub struct ExMdnsEvent(libp2p::mdns::Event);

/// The outside type `libp2p::relay::client::Event`: carried through, never looked into.
#[verifier::external_type_specification]
#[verifier::external_body]
pub struct ExRelayClientEvent(libp2p::relay::client::Event);

/// The outside type `libp2p::dcutr::Event`: carried through, never looked into.
#[verifier::external_type_specification]
#[verifier::external_body]
pub struct ExDcutrEvent(libp2p::dcutr::Event);

/// The outside type `libp2p::rendezvous::client::Event`: carried through, never looked into.
#[verifier::external_type_specification]
#[verifier::external_body]
pub struct ExRendezvousClientEvent(libp2p::rendezvous::client::Event);

/// The outside type `libp2p::rendezvous::server::Event`: carried through, never looked into.
#[verifier::external_type_specification]
#[verifier::external_body]
pub struct ExRendezvousServerEvent(libp2p::rendezvous::server::Event);

/// The outside type `libp2p::kad::Event`: carried through, never looked into.
#[verifier::external_type_specification]
#[verifier::external_body]
pub struct ExKadEvent(libp2p::kad::Event);

/// The outside type `libp2p::relay::Event`: carried through, never looked into.
#[verifier::external_type_specification]
#[verifier::external_body]
pub struct ExRelayServerEvent(libp2p::relay::Event);

/// The outside type `libp2p::core::transport::ListenerId`: carried through, never looked into.
#[verifier::external_type_specification]
#[verifier::external_body]
pub struct ExListenerId(libp2p::core::transport::ListenerId);

/// Compares two listener identifiers with `ListenerId`'s derived `==`, which
/// compares the one number that such an identifier holds.
#[verifier::external_body]
pub(crate) fn same_listener(
    a: &libp2p::core::transport::ListenerId,
    b: &libp2p::core::transport::ListenerId,
) -> (same: bool)
    ensures
        same == (*a == *b),
{
    a == b
}

/// What a protocol module reports: one variant for each module, holding the
/// module's own event untouched.
#[derive(Debug)]
pub enum Logic {
    Ping(libp2p::ping::Event),
    Protocol(libp2p::identify::Event),
    Mdns(libp2p::mdns::Event),
    ClientRelay(libp2p::relay::client::Event),
    Dcutr(libp2p::dcutr::Event),
    ClientRzv(libp2p::rendezvous::client::Event),
    ServerRzv(libp2p::rendezvous::server::Event),
    Kad(libp2p::kad::Event),
    ServerRelay(libp2p::relay::Event),
}

impl Logic {
    /// The module that an event came from.
    pub open spec fn module_of(self) -> Module {
        match self {
            Logic::Ping(_) => Module::Liveness,
            Logic::Protocol(_) => Module::Identify,
            Logic::Mdns(_) => Module::LocalDiscovery,
            Logic::ClientRelay(_) => Module::RelayClient,
            Logic::Dcutr(_) => Module::HolePunch,
            Logic::ClientRzv(_) => Module::RendezvousClient,
            Logic::ServerRzv(_) => Module::RendezvousServer,
            Logic::Kad(_) => Module::DhtRouting,
            Logic::ServerRelay(_) => Module::RelayServer,
        }
    }

    /// The module that this event came from.
    pub fn module(&self) -> (module: Module)
        ensures
            module == self.module_of(),
    {
        match self {
            Logic::Ping(_) => Module::Liveness,
            Logic::Protocol(_) => Module::Identify,
            Logic::Mdns(_) => Module::LocalDiscovery,
            Logic::ClientRelay(_) => Module::RelayClient,
            Logic::Dcutr(_) => Module::HolePunch,
            Logic::ClientRzv(_) => Module::RendezvousClient,
            Logic::ServerRzv(_) => Module::RendezvousServer,
            Logic::Kad(_) => Module::DhtRouting,
            Logic::ServerRelay(_) => Module::RelayServer,
        }
    }
}

impl From<libp2p::ping::Event> for Logic {
    fn from(value: libp2p::ping::Event) -> (event: Logic) {
        Logic::Ping(value)
    }
}

impl vstd::std_specs::convert::FromSpecImpl<libp2p::ping::Event> for Logic {
    open spec fn obeys_from_spec() -> bool {
        true
    }

    open spec fn from_spec(value: libp2p::ping::Event) -> Logic {
        Logic::Ping(value)
    }
}

impl From<libp2p::identify::Event> for Logic {
    fn from(value: libp2p::identify::Event) -> (event: Logic) {
        Logic::Protocol(value)
    }
}

impl vstd::std_specs::convert::FromSpecImpl<libp2p::identify::Event> for Logic {
    open spec fn obeys_from_spec() -> bool {
        true
    }

    open spec fn from_spec(value: libp2p::identify::Event) -> Logic {
        Logic::Protocol(value)
    }
}

impl From<libp2p::mdns::Event> for Logic {
    fn from(value: libp2p::mdns::Event) -> (event: Logic) {
        Logic::Mdns(value)
    }
}

impl vstd::std_specs::convert::FromSpecImpl<libp2p::mdns::Event> for Logic {
    open spec fn obeys_from_spec() -> bool {
        true
    }

    open spec fn from_spec(value: libp2p::mdns::Event) -> Logic {
        Logic::Mdns(value)
    }
}

impl From<libp2p::relay::client::Event> for Logic {
    fn from(value: libp2p::relay::client::Event) -> (event: Logic) {
        Logic::ClientRelay(value)
    }
}

impl vstd::std_specs::convert::FromSpecImpl<libp2p::relay::client::Event> for Logic {
    open spec fn obeys_from_spec() -> bool {
        true
    }

    open spec fn from_spec(value: libp2p::relay::client::Event) -> Logic {
        Logic::ClientRelay(value)
    }
}

impl From<libp2p::dcutr::Event> for Logic {
    fn from(value: libp2p::dcutr::Event) -> (event: Logic) {
        Logic::Dcutr(value)
    }
}

impl vstd::std_specs::convert::FromSpecImpl<libp2p::dcutr::Event> for Logic {
    open spec fn obeys_from_spec() -> bool {
        true
    }

    open spec fn from_spec(value: libp2p::dcutr::Event) -> Logic {
        Logic::Dcutr(value)
    }
}

impl From<libp2p::rendezvous::client::Event> for Logic {
    fn from(value: libp2p::rendezvous::client::Event) -> (event: Logic) {
        Logic::ClientRzv(value)
    }
}

impl vstd::std_specs::convert::FromSpecImpl<libp2p::rendezvous::client::Event> for Logic {
    open spec fn obeys_from_spec() -> bool {
        true
    }

    open spec fn from_spec(value: libp2p::rendezvous::client::Event) -> Logic {
        Logic::ClientRzv(value)
    }
}

impl From<libp2p::rendezvous::server::Event> for Logic {
    fn from(value: libp2p::rendezvous::server::Event) -> (event: Logic) {
        Logic::ServerRzv(value)
    }
}

impl vstd::std_specs::convert::FromSpecImpl<libp2p::rendezvous::server::Event> for Logic {
    open spec fn obeys_from_spec() -> bool {
        true
    }

    open spec fn from_spec(value: libp2p::rendezvous::server::Event) -> Logic {
        Logic::ServerRzv(value)
    }
}

impl From<libp2p::kad::Event> for Logic {
    fn from(value: libp2p::kad::Event) -> (event: Logic) {
        Logic::Kad(value)
    }
}

impl vstd::std_specs::convert::FromSpecImpl<libp2p::kad::Event> for Logic {
    open spec fn obeys_from_spec() -> bool {
        true
    }

    open spec fn from_spec(value: libp2p::kad::Event) -> Logic {
        Logic::Kad(value)
    }
}

impl From<libp2p::relay::Event> for Logic {
    fn from(value: libp2p::relay::Event) -> (event: Logic) {
        Logic::ServerRelay(value)
    }
}

impl vstd::std_specs::convert::FromSpecImpl<libp2p::relay::Event> for Logic {
    open spec fn obeys_from_spec() -> bool {
        true
    }

    open spec fn from_spec(value: libp2p::relay::Event) -> Logic {
        Logic::ServerRelay(value)
    }
}

/// A change in the transport below the modules.
#[derive(Debug)]
pub enum Lifecycle {
    NewListenAddr { listener: libp2p::core::transport::ListenerId, address: ListenAddress },
    ExpiredListenAddr { listener: libp2p::core::transport::ListenerId, address: ListenAddress },
    ListenerClosed { listener: libp2p::core::transport::ListenerId },
    ConnectionEstablished { peer: libp2p::identity::PeerId },
    ConnectionClosed { peer: libp2p::identity::PeerId },
    DialError { target: Option<libp2p::identity::PeerId> },
}

/// The categories by which lifecycle events are shown or withheld.
#[derive(Clone, Copy, Debug, PartialEq, Eq, Hash, Structural)]
pub enum LifecycleKind {
    ListenAddress,
    ListenerClosed,
    Connection,
    DialError,
}

impl Lifecycle {
    /// The category of a lifecycle event.
    pub open spec fn kind_of(self) -> LifecycleKind {
        match self {
            Lifecycle::NewListenAddr { .. } => LifecycleKind::ListenAddress,
            Lifecycle::ExpiredListenAddr { .. } => LifecycleKind::ListenAddress,
            Lifecycle::ListenerClosed { .. } => LifecycleKind::ListenerClosed,
            Lifecycle::ConnectionEstablished { .. } => LifecycleKind::Connection,
            Lifecycle::ConnectionClosed { .. } => LifecycleKind::Connection,
            Lifecycle::DialError { .. } => LifecycleKind::DialError,
        }
    }

    /// The category of this event.
    pub fn kind(&self) -> (kind: LifecycleKind)
        ensures
            kind == self.kind_of(),
    {
        match self {
            Lifecycle::NewListenAddr { .. } => LifecycleKind::ListenAddress,
            Lifecycle::ExpiredListenAddr { .. } => LifecycleKind::ListenAddress,
            Lifecycle::ListenerClosed { .. } => LifecycleKind::ListenerClosed,
            Lifecycle::ConnectionEstablished { .. } => LifecycleKind::Connection,
            Lifecycle::ConnectionClosed { .. } => LifecycleKind::Connection,
            Lifecycle::DialError { .. } => LifecycleKind::DialError,
        }
    }
}

/// Which lifecycle categories the application gets to see.
#[derive(Clone, Copy, Debug, PartialEq, Eq, Structural)]
pub struct LifecyclePolicy {
    pub listen_addresses: bool,
    pub listener_closed: bool,
    pub connections: bool,
    pub dial_errors: bool,
}

impl LifecyclePolicy {
    /// Whether the policy shows events of `kind`.
    pub open spec fn admits_kind(self, kind: LifecycleKind) -> bool {
        match kind {
            LifecycleKind::ListenAddress => self.listen_addresses,
            LifecycleKind::ListenerClosed => self.listener_closed,
            LifecycleKind::Connection => self.connections,
            LifecycleKind::DialError => self.dial_errors,
        }
    }

    /// Whether this policy shows events of `kind`.
    pub fn admits(&self, kind: LifecycleKind) -> (shown: bool)
        ensures
            shown == self.admits_kind(kind),
    {
        match kind {
            LifecycleKind::ListenAddress => self.listen_addresses,
            LifecycleKind::ListenerClosed => self.listener_closed,
            LifecycleKind::Connection => self.connections,
            LifecycleKind::DialError => self.dial_errors,
        }
    }

    /// The policy that shows every lifecycle event.
    pub fn observe_all() -> (policy: LifecyclePolicy)
        ensures
            forall|kind: LifecycleKind| policy.admits_kind(kind),
    {
        LifecyclePolicy {
            listen_addresses: true,
            listener_closed: true,
            connections: true,
            dial_errors: true,
        }
    }

    /// The policy that shows new and expired listen addresses and closed
    /// listeners, and withholds what happens to single connections.
    pub fn listeners_only() -> (policy: LifecyclePolicy)
        ensures
            forall|kind: LifecycleKind|
                policy.admits_kind(kind) == (kind == LifecycleKind::ListenAddress || kind
                    == LifecycleKind::ListenerClosed),
    {
        LifecyclePolicy {
            listen_addresses: true,
            listener_closed: true,
            connections: false,
            dial_errors: false,
        }
    }
}

/// One event as the transport multiplexer hands it out.
#[derive(Debug)]
pub enum TransportEvent {
    /// An event of one of the modules.
    Module(Logic),
    /// A change in the transport itself.
    Lifecycle(Lifecycle),
    /// Anything for which the node has no case.
    Unrecognized,
}

/// What one poll step hands to the application.
#[derive(Debug)]
pub enum EventEnvelope {
    Module(Logic),
    Lifecycle(Lifecycle),
}

impl EventEnvelope {
    /// The module behind an envelope, where a module is behind it.
    pub open spec fn origin_of(self) -> Option<Module> {
        match self {
            EventEnvelope::Module(event) => Some(event.module_of()),
            EventEnvelope::Lifecycle(_) => None,
        }
    }

    /// The module behind this envelope, where a module is behind it.
    pub fn origin(&self) -> (module: Option<Module>)
        ensures
            module == self.origin_of(),
    {
        match self {
            EventEnvelope::Module(event) => Some(event.module()),
            EventEnvelope::Lifecycle(_) => None,
        }
    }
}

/// The envelope for `event` at a node of `role` under `policy`. A module event
/// is always passed on, as long as the role runs that module; a lifecycle
/// event only where the policy shows its category; nothing else ever.
pub open spec fn translation(role: Role, policy: LifecyclePolicy, event: TransportEvent) -> Option<
    EventEnvelope,
> {
    match event {
        TransportEvent::Module(inner) => if role_activates(role, inner.module_of()) {
            Some(EventEnvelope::Module(inner))
        } else {
            None
        },
        TransportEvent::Lifecycle(change) => if policy.admits_kind(change.kind_of()) {
            Some(EventEnvelope::Lifecycle(change))
        } else {
            None
        },
        TransportEvent::Unrecognized => None,
    }
}

/// Folds one transport event into the envelope that the application sees.
pub fn translate(role: Role, policy: &LifecyclePolicy, event: TransportEvent) -> (envelope: Option<
    EventEnvelope,
>)
    ensures
        envelope == translation(role, *policy, event),
{
    match event {
        TransportEvent::Module(inner) => {
            if role.activates(inner.module()) {
                Some(EventEnvelope::Module(inner))
            } else {
                None
            }
        },
        TransportEvent::Lifecycle(change) => {
            if policy.admits(change.kind()) {
                Some(EventEnvelope::Lifecycle(change))
            } else {
                None
            }
        },
        TransportEvent::Unrecognized => None,
    }
}

/// A module's own event, once folded into an envelope, still tells which
/// module it came from: the conversion of each module's event type lands in
/// that module's variant.
pub proof fn lemma_conversion_keeps_module(
    ping: libp2p::ping::Event,
    identify: libp2p::identify::Event,
    mdns: libp2p::mdns::Event,
    relay_client: libp2p::relay::client::Event,
    dcutr: libp2p::dcutr::Event,
    rendezvous_client: libp2p::rendezvous::client::Event,
    rendezvous_server: libp2p::rendezvous::server::Event,
    kad: libp2p::kad::Event,
    relay_server: libp2p::relay::Event,
)
    ensures
        <Logic as vstd::std_specs::convert::FromSpec<libp2p::ping::Event>>::from_spec(ping).module_of() == Module::Liveness,
        <Logic as vstd::std_specs::convert::FromSpec<libp2p::identify::Event>>::from_spec(identify).module_of() == Module::Identify,
        <Logic as vstd::std_specs::convert::FromSpec<libp2p::mdns::Event>>::from_spec(mdns).module_of() == Module::LocalDiscovery,
        <Logic as vstd::std_specs::convert::FromSpec<libp2p::relay::client::Event>>::from_spec(relay_client).module_of() == Module::RelayClient,
        <Logic as vstd::std_specs::convert::FromSpec<libp2p::dcutr::Event>>::from_spec(dcutr).module_of() == Module::HolePunch,
        <Logic as vstd::std_specs::convert::FromSpec<libp2p::rendezvous::client::Event>>::from_spec(rendezvous_client).module_of() == Module::RendezvousClient,
        <Logic as vstd::std_specs::convert::FromSpec<libp2p::rendezvous::server::Event>>::from_spec(rendezvous_server).module_of() == Module::RendezvousServer,
        <Logic as vstd::std_specs::convert::FromSpec<libp2p::kad::Event>>::from_spec(kad).module_of() == Module::DhtRouting,
        <Logic as vstd::std_specs::convert::FromSpec<libp2p::relay::Event>>::from_spec(relay_server).module_of() == Module::RelayServer,
{
}

/// At a node whose role runs the module, every module event is translated, and
/// the envelope names the module that the event came from, whatever the policy.
pub proof fn lemma_module_event_survives(role: Role, policy: LifecyclePolicy, event: Logic)
    requires
        role_activates(role, event.module_of()),
    ensures
        translation(role, policy, TransportEvent::Module(event)) == Some(
            EventEnvelope::Module(event),
        ),
        translation(role, policy, TransportEvent::Module(event)).unwrap().origin_of() == Some(
            event.module_of(),
        ),
{
}

/// No envelope names a module that the node's role does not run.
pub proof fn lemma_envelope_module_is_active(
    role: Role,
    policy: LifecyclePolicy,
    event: TransportEvent,
)
    ensures
        match translation(role, policy, event) {
            Some(envelope) => match envelope.origin_of() {
                Some(module) => role_activates(role, module),
                None => true,
            },
            None => true,
        },
{
}

/// Every module has its own variant among the module events.
pub proof fn lemma_every_module_has_a_variant(module: Module)
    ensures
        exists|event: Logic| event.module_of() == module,
{
    let witness = match module {
        Module::Liveness => Logic::Ping(arbitrary()),
        Module::Identify => Logic::Protocol(arbitrary()),
        Module::LocalDiscovery => Logic::Mdns(arbitrary()),
        Module::RelayClient => Logic::ClientRelay(arbitrary()),
        Module::HolePunch => Logic::Dcutr(arbitrary()),
        Module::RendezvousClient => Logic::ClientRzv(arbitrary()),
        Module::RendezvousServer => Logic::ServerRzv(arbitrary()),
        Module::DhtRouting => Logic::Kad(arbitrary()),
        Module::RelayServer => Logic::ServerRelay(arbitrary()),
    };
    assert(witness.module_of() == module);
}

} // verus!
