//! The events of a relay: liveness, identification and the relay server.
use crate::event::Logic;
use crate::role::{role_activates, Module, Role};
use vstd::prelude::*;

verus! {

/// What one of the modules reports, one variant for each module.
#[derive(Debug)]
pub enum RelayEvent {
    Ping(libp2p::ping::Event),
    Identify(libp2p::identify::Event),
    Relay(libp2p::relay::Event),
}

impl RelayEvent {
    /// The module that an event came from.
    pub open spec fn module_of(self) -> Module {
        match self {
            RelayEvent::Ping(_) => Module::Liveness,
            RelayEvent::Identify(_) => Module::Identify,
            RelayEvent::Relay(_) => Module::RelayServer,
        }
    }

    /// The event as a node of any role reports it.
    pub open spec fn folded(self) -> Logic {
        match self {
            RelayEvent::Ping(inner) => Logic::Ping(inner),
            RelayEvent::Identify(inner) => Logic::Protocol(inner),
            RelayEvent::Relay(inner) => Logic::ServerRelay(inner),
        }
    }

    /// The module that this event came from, which is one that the
    /// relay role runs.
    pub fn module(&self) -> (module: Module)
        ensures
            module == self.module_of(),
            role_activates(Role::Relay, module),
    {
        match self {
            RelayEvent::Ping(_) => Module::Liveness,
            RelayEvent::Identify(_) => Module::Identify,
            RelayEvent::Relay(_) => Module::RelayServer,
        }
    }

    /// Folds the event into the form in which a node of any role reports it.
    /// The module's own event is carried over untouched, and the module it
    /// came from stays the same.
    pub fn into_logic(self) -> (event: Logic)
        ensures
            event == self.folded(),
            event.module_of() == self.module_of(),
    {
        match self {
            RelayEvent::Ping(inner) => Logic::Ping(inner),
            RelayEvent::Identify(inner) => Logic::Protocol(inner),
            RelayEvent::Relay(inner) => Logic::ServerRelay(inner),
        }
    }
}

impl From<libp2p::ping::Event> for RelayEvent {
    fn from(value: libp2p::ping::Event) -> (event: RelayEvent) {
        RelayEvent::Ping(value)
    }
}

impl vstd::std_specs::convert::FromSpecImpl<libp2p::ping::Event> for RelayEvent {
    open spec fn obeys_from_spec() -> bool {
        true
    }

    open spec fn from_spec(value: libp2p::ping::Event) -> RelayEvent {
        RelayEvent::Ping(value)
    }
}

impl From<libp2p::identify::Event> for RelayEvent {
    fn from(value: libp2p::identify::Event) -> (event: RelayEvent) {
        RelayEvent::Identify(value)
    }
}

impl vstd::std_specs::convert::FromSpecImpl<libp2p::identify::Event> for RelayEvent {
    open spec fn obeys_from_spec() -> bool {
        true
    }

    open spec fn from_spec(value: libp2p::identify::Event) -> RelayEvent {
        RelayEvent::Identify(value)
    }
}

impl From<libp2p::relay::Event> for RelayEvent {
    fn from(value: libp2p::relay::Event) -> (event: RelayEvent) {
        RelayEvent::Relay(value)
    }
}

impl vstd::std_specs::convert::FromSpecImpl<libp2p::relay::Event> for RelayEvent {
    open spec fn obeys_from_spec() -> bool {
        true
    }

    open spec fn from_spec(value: libp2p::relay::Event) -> RelayEvent {
        RelayEvent::Relay(value)
    }
}

/// Every event of this kind comes from a module of the relay role, and
/// folding keeps the module.
pub proof fn lemma_events_belong_to_role(event: RelayEvent)
    ensures
        role_activates(Role::Relay, event.module_of()),
        event.folded().module_of() == event.module_of(),
{
}

} // verus!
