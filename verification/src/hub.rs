//! The events of a hub: liveness, identification and the rendezvous server.
use crate::event::Logic;
use crate::role::{role_activates, Module, Role};
use vstd::prelude::*;

verus! {

/// What one of the modules reports, one variant for each module.
#[derive(Debug)]
pub enum HubEvent {
    Ping(libp2p::ping::Event),
    Identify(libp2p::identify::Event),
    Rzv(libp2p::rendezvous::server::Event),
}

impl HubEvent {
    /// The module that an event came from.
    pub open spec fn module_of(self) -> Module {
        match self {
            HubEvent::Ping(_) => Module::Liveness,
            HubEvent::Identify(_) => Module::Identify,
            HubEvent::Rzv(_) => Module::RendezvousServer,
        }
    }

    /// The event as a node of any role reports it.
    pub open spec fn folded(self) -> Logic {
        match self {
            HubEvent::Ping(inner) => Logic::Ping(inner),
            HubEvent::Identify(inner) => Logic::Protocol(inner),
            HubEvent::Rzv(inner) => Logic::ServerRzv(inner),
        }
    }

    /// The module that this event came from, which is one that the
    /// hub role runs.
    pub fn module(&self) -> (module: Module)
        ensures
            module == self.module_of(),
            role_activates(Role::Hub, module),
    {
        match self {
            HubEvent::Ping(_) => Module::Liveness,
            HubEvent::Identify(_) => Module::Identify,
            HubEvent::Rzv(_) => Module::RendezvousServer,
        }
    }

    /// Folds the event into the form in which a node of any role reports it.
    /// The module's own event is carried over untouched, and the module it
    /// came from stays the same.
    pub fn into_logic(self) -> (event: Logic)
        ensures
            event == self.folded(),
            event.module_of() == self.module_of(),
    {
        match self {
            HubEvent::Ping(inner) => Logic::Ping(inner),
            HubEvent::Identify(inner) => Logic::Protocol(inner),
            HubEvent::Rzv(inner) => Logic::ServerRzv(inner),
        }
    }
}

impl From<libp2p::ping::Event> for HubEvent {
    fn from(value: libp2p::ping::Event) -> (event: HubEvent) {
        HubEvent::Ping(value)
    }
}

impl vstd::std_specs::convert::FromSpecImpl<libp2p::ping::Event> for HubEvent {
    open spec fn obeys_from_spec() -> bool {
        true
    }

    open spec fn from_spec(value: libp2p::ping::Event) -> HubEvent {
        HubEvent::Ping(value)
    }
}

impl From<libp2p::identify::Event> for HubEvent {
    fn from(value: libp2p::identify::Event) -> (event: HubEvent) {
        HubEvent::Identify(value)
    }
}

impl vstd::std_specs::convert::FromSpecImpl<libp2p::identify::Event> for HubEvent {
    open spec fn obeys_from_spec() -> bool {
        true
    }

    open spec fn from_spec(value: libp2p::identify::Event) -> HubEvent {
        HubEvent::Identify(value)
    }
}

impl From<libp2p::rendezvous::server::Event> for HubEvent {
    fn from(value: libp2p::rendezvous::server::Event) -> (event: HubEvent) {
        HubEvent::Rzv(value)
    }
}

impl vstd::std_specs::convert::FromSpecImpl<libp2p::rendezvous::server::Event> for HubEvent {
    open spec fn obeys_from_spec() -> bool {
        true
    }

    open spec fn from_spec(value: libp2p::rendezvous::server::Event) -> HubEvent {
        HubEvent::Rzv(value)
    }
}

/// Every event of this kind comes from a module of the hub role, and
/// folding keeps the module.
pub proof fn lemma_events_belong_to_role(event: HubEvent)
    ensures
        role_activates(Role::Hub, event.module_of()),
        event.folded().module_of() == event.module_of(),
{
}

} // verus!
