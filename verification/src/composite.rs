//! The modules of one node, brought up according to the node's role.
use crate::error::CompositeBuildError;
use crate::node::BuildPlan;
use crate::role::{role_activates, Module};
use vstd::prelude::*;

verus! {

/// The outside type `libp2p::ping::Behaviour`: carried through, never looked into.
#[verifier::external_type_specification]
#[verifier::external_body]
pub struct ExPingBehaviour(libp2p::ping::Behaviour);

/// The outside type `libp2p::identify::Behaviour`: carried through, never looked into.
#[verifier::external_type_specification]
#[verifier::external_body]
pub struct ExIdentifyBehaviour(libp2p::identify::Behaviour);

/// The outside type `libp2p::relay::client::Behaviour`: carried through, never looked into.
#[verifier::external_type_specification]
#[verifier::external_body]
pub struct ExRelayClientBehaviour(libp2p::relay::client::Behaviour);

/// The outside type `libp2p::dcutr::Behaviour`: carried through, never looked into.
#[verifier::external_type_specification]
#[verifier::external_body]
pub struct ExDcutrBehaviour(libp2p::dcutr::Behaviour);

/// The outside type `libp2p::rendezvous::client::Behaviour`: carried through, never looked into.
#[verifier::external_type_specification]
#[verifier::external_body]
pub struct ExRendezvousClientBehaviour(libp2p::rendezvous::client::Behaviour);

/// The outside type `libp2p::rendezvous::server::Behaviour`: carried through, never looked into.
#[verifier::external_type_specification]
#[verifier::external_body]
pub struct ExRendezvousServerBehaviour(libp2p::rendezvous::server::Behaviour);

/// The outside type `libp2p::kad::Behaviour<TStore>`: carried through, never looked into.
#[verifier::external_type_specification]
#[verifier::external_body]
#[verifier::reject_recursive_types(TStore)]
pub struct ExKadBehaviour<TStore>(libp2p::kad::Behaviour<TStore>);

/// The outside type `libp2p::kad::store::MemoryStore`: carried through, never looked into.
#[verifier::external_type_specification]
#[verifier::external_body]
pub struct ExMemoryStore(libp2p::kad::store::MemoryStore);

/// The outside type `libp2p::relay::Behaviour`: carried through, never looked into.
#[verifier::external_type_specification]
#[verifier::external_body]
pub struct ExRelayBehaviour(libp2p::relay::Behaviour);

/// Calls `ping::Config::new`, `Config::with_interval` and
/// `ping::Behaviour::new`: a liveness module that probes every `secs`
/// seconds. Nothing is claimed of the module.
#[verifier::external_body]
fn liveness_module(secs: u64) -> (module: libp2p::ping::Behaviour) {
    let config = libp2p::ping::Config::new().with_interval(std::time::Duration::from_secs(secs));
    libp2p::ping::Behaviour::new(config)
}

/// Calls `identify::Config::new` and `identify::Behaviour::new` with the
/// identification string and the public key of `keypair`. Nothing is claimed
/// of the module.
#[verifier::external_body]
fn identify_module(protocol_version: &str, keypair: &libp2p::identity::Keypair) -> (module:
    libp2p::identify::Behaviour) {
    let config = libp2p::identify::Config::new(protocol_version.into(), keypair.public());
    libp2p::identify::Behaviour::new(config)
}

/// Calls `dcutr::Behaviour::new` for the local peer. Nothing is claimed of
/// the module.
#[verifier::external_body]
fn hole_punch_module(peer: &libp2p::identity::PeerId) -> (module: libp2p::dcutr::Behaviour) {
    libp2p::dcutr::Behaviour::new(*peer)
}

/// Calls `rendezvous::client::Behaviour::new` with a copy of the key pair.
/// Nothing is claimed of the module.
#[verifier::external_body]
fn rendezvous_client_module(keypair: &libp2p::identity::Keypair) -> (module:
    libp2p::rendezvous::client::Behaviour) {
    libp2p::rendezvous::client::Behaviour::new(keypair.clone())
}

/// Calls `rendezvous::server::Behaviour::new` with the default
/// configuration. Nothing is claimed of the module.
#[verifier::external_body]
fn rendezvous_server_module() -> (module: libp2p::rendezvous::server::Behaviour) {
    libp2p::rendezvous::server::Behaviour::new(libp2p::rendezvous::server::Config::default())
}

/// Calls `kad::store::MemoryStore::new` and `kad::Behaviour::new` for the
/// local peer. Nothing is claimed of the module.
#[verifier::external_body]
fn routing_module(peer: &libp2p::identity::PeerId) -> (module: libp2p::kad::Behaviour<
    libp2p::kad::store::MemoryStore,
>) {
    libp2p::kad::Behaviour::new(*peer, libp2p::kad::store::MemoryStore::new(*peer))
}

/// Calls `relay::Behaviour::new` for the local peer with the default
/// configuration. Nothing is claimed of the module.
#[verifier::external_body]
fn relay_server_module(peer: &libp2p::identity::PeerId) -> (module: libp2p::relay::Behaviour) {
    libp2p::relay::Behaviour::new(*peer, libp2p::relay::Config::default())
}

/// One instance of every module that a node runs, and of no other. Local
/// discovery opens sockets and the relay client comes with the transport, so
/// the host brings those two; `D` is the host's local-discovery module.
pub struct ModuleSet<D> {
    pub liveness: libp2p::ping::Behaviour,
    pub identify: libp2p::identify::Behaviour,
    pub local_discovery: Option<D>,
    pub relay_client: Option<libp2p::relay::client::Behaviour>,
    pub hole_punch: Option<libp2p::dcutr::Behaviour>,
    pub rendezvous_client: Option<libp2p::rendezvous::client::Behaviour>,
    pub rendezvous_server: Option<libp2p::rendezvous::server::Behaviour>,
    pub routing: Option<libp2p::kad::Behaviour<libp2p::kad::store::MemoryStore>>,
    pub relay_server: Option<libp2p::relay::Behaviour>,
}

impl<D> ModuleSet<D> {
    /// Whether the set holds an instance of `module`.
    pub open spec fn holds(&self, module: Module) -> bool {
        match module {
            Module::Liveness => true,
            Module::Identify => true,
            Module::LocalDiscovery => self.local_discovery.is_some(),
            Module::RelayClient => self.relay_client.is_some(),
            Module::HolePunch => self.hole_punch.is_some(),
            Module::RendezvousClient => self.rendezvous_client.is_some(),
            Module::RendezvousServer => self.rendezvous_server.is_some(),
            Module::DhtRouting => self.routing.is_some(),
            Module::RelayServer => self.relay_server.is_some(),
        }
    }

    /// Whether this set holds an instance of `module`.
    pub fn has(&self, module: Module) -> (held: bool)
        ensures
            held == self.holds(module),
    {
        match module {
            Module::Liveness => true,
            Module::Identify => true,
            Module::LocalDiscovery => self.local_discovery.is_some(),
            Module::RelayClient => self.relay_client.is_some(),
            Module::HolePunch => self.hole_punch.is_some(),
            Module::RendezvousClient => self.rendezvous_client.is_some(),
            Module::RendezvousServer => self.rendezvous_server.is_some(),
            Module::DhtRouting => self.routing.is_some(),
            Module::RelayServer => self.relay_server.is_some(),
        }
    }
}

/// What is said of a module that the host was to bring and did not.
pub open spec fn not_brought() -> Seq<char> {
    "the host brought no instance of the module"@
}

/// The module for which bringing the modules up fails, if it fails: one that
/// the role runs and the host was to bring and did not, local discovery
/// before the relay client.
pub open spec fn missing_module(
    plan: BuildPlan,
    has_local_discovery: bool,
    has_relay_client: bool,
) -> Option<Module> {
    if role_activates(plan.role_of(), Module::LocalDiscovery) && !has_local_discovery {
        Some(Module::LocalDiscovery)
    } else if role_activates(plan.role_of(), Module::RelayClient) && !has_relay_client {
        Some(Module::RelayClient)
    } else {
        None
    }
}

impl BuildPlan {
    /// Brings up the modules of the plan's role. The host hands in the two
    /// modules that only it can make; what the role does not run is dropped.
    /// On success the set holds exactly the modules of the role, and the
    /// host's instances are the ones in it. Where the host did not bring a
    /// module that the role runs, there is no set.
    pub fn instantiate<D>(
        &self,
        local_discovery: Option<D>,
        relay_client: Option<libp2p::relay::client::Behaviour>,
    ) -> (set: Result<ModuleSet<D>, CompositeBuildError>)
        requires
            self.well_formed(),
        ensures
            match missing_module(*self, local_discovery.is_some(), relay_client.is_some()) {
                Some(module) => set matches Err(e) && e.module == module && e.cause@
                    == not_brought(),
                None => set matches Ok(s) && {
                    &&& forall|m: Module| s.holds(m) == role_activates(self.role_of(), m)
                    &&& s.local_discovery.is_some() ==> s.local_discovery == local_discovery
                    &&& s.relay_client.is_some() ==> s.relay_client == relay_client
                },
            },
    {
        let role = self.role();
        if role.activates(Module::LocalDiscovery) && local_discovery.is_none() {
            return Err(
                CompositeBuildError {
                    module: Module::LocalDiscovery,
                    cause: "the host brought no instance of the module".to_owned(),
                },
            );
        }
        if role.activates(Module::RelayClient) && relay_client.is_none() {
            return Err(
                CompositeBuildError {
                    module: Module::RelayClient,
                    cause: "the host brought no instance of the module".to_owned(),
                },
            );
        }
        let identity = self.identity();
        let set = ModuleSet {
            liveness: liveness_module(role.liveness_interval_secs()),
            identify: identify_module(role.protocol_version(), identity.keypair()),
            local_discovery: if role.activates(Module::LocalDiscovery) {
                local_discovery
            } else {
                None
            },
            relay_client: if role.activates(Module::RelayClient) {
                relay_client
            } else {
                None
            },
            hole_punch: if role.activates(Module::HolePunch) {
                Some(hole_punch_module(identity.peer_id()))
            } else {
                None
            },
            rendezvous_client: if role.activates(Module::RendezvousClient) {
                Some(rendezvous_client_module(identity.keypair()))
            } else {
                None
            },
            rendezvous_server: if role.activates(Module::RendezvousServer) {
                Some(rendezvous_server_module())
            } else {
                None
            },
            routing: if role.activates(Module::DhtRouting) {
                Some(routing_module(identity.peer_id()))
            } else {
                None
            },
            relay_server: if role.activates(Module::RelayServer) {
                Some(relay_server_module(identity.peer_id()))
            } else {
                None
            },
        };
        Ok(set)
    }
}

} // verus!
