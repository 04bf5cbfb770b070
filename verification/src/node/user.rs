//! The events of a user node that reaches others through relays: liveness, identification, the relay client and hole punching.
use crate::event::Logic;
use crate::role::{role_activates, Module, Role};
use vstd::prelude::*;

verus! {

/// What one of the modules reports, one variant for each module.
#[derive(Debug)]
pub enum UserEvent {
    Ping(libp2p::ping::Event),
    Identify(libp2p::identify::Event),
    Relay(libp2p::relay::client::Event),
    Dcutr(libp2p::dcutr::Event),
}

impl UserEvent {
    /// The module that an event came from.
    pub open spec fn module_of(self) -> Module {
        match self {
            UserEvent::Ping(_) => Module::Liveness,
            UserEvent::Identify(_) => Module::Identify,
            UserEvent::Relay(_) => Module::RelayClient,
            UserEvent::Dcutr(_) => Module::HolePunch,
        }
    }

    /// The event as a node of any role reports it.
    pub open spec fn folded(self) -> Logic {
        match self {
            UserEvent::Ping(inner) => Logic::Ping(inner),
            UserEvent::Identify(inner) => Logic::Protocol(inner),
            UserEvent::Relay(inner) => Logic::ClientRelay(inner),
            UserEvent::Dcutr(inner) => Logic::Dcutr(inner),
        }
    }

    /// The module that this event came from, which is one that the
    /// user role runs.
    pub fn module(&self) -> (module: Module)
        ensures
            module == self.module_of(),
            role_activates(Role::User, module),
    {
        match self {
            UserEvent::Ping(_) => Module::Liveness,
            UserEvent::Identify(_) => Module::Identify,
            UserEvent::Relay(_) => Module::RelayClient,
            UserEvent::Dcutr(_) => Module::HolePunch,
        }
    }

    /// Folds the event into the form in which a node of any role reports it.
    /// The module's own event is carried over untouched, and the module it
    /// came from stays the same.
    pub fn into_logic(self) -> (event: Logic)
        ensures
            event == self.folded(),
            event.module_of() == self.module_of(),
    {
        match self {
            UserEvent::Ping(inner) => Logic::Ping(inner),
            UserEvent::Identify(inner) => Logic::Protocol(inner),
            UserEvent::Relay(inner) => Logic::ClientRelay(inner),
            UserEvent::Dcutr(inner) => Logic::Dcutr(inner),
        }
    }
}

impl From<libp2p::ping::Event> for UserEvent {
    fn from(value: libp2p::ping::Event) -> (event: UserEvent) {
        UserEvent::Ping(value)
    }
}

impl vstd::std_specs::convert::FromSpecImpl<libp2p::ping::Event> for UserEvent {
    open spec fn obeys_from_spec() -> bool {
        true
    }

    open spec fn from_spec(value: libp2p::ping::Event) -> UserEvent {
        UserEvent::Ping(value)
    }
}

impl From<libp2p::identify::Event> for UserEvent {
    fn from(value: libp2p::identify::Event) -> (event: UserEvent) {
        UserEvent::Identify(value)
    }
}

impl vstd::std_specs::convert::FromSpecImpl<libp2p::identify::Event> for UserEvent {
    open spec fn obeys_from_spec() -> bool {
        true
    }

    open spec fn from_spec(value: libp2p::identify::Event) -> UserEvent {
        UserEvent::Identify(value)
    }
}

impl From<libp2p::relay::client::Event> for UserEvent {
    fn from(value: libp2p::relay::client::Event) -> (event: UserEvent) {
        UserEvent::Relay(value)
    }
}

impl vstd::std_specs::convert::FromSpecImpl<libp2p::relay::client::Event> for UserEvent {
    open spec fn obeys_from_spec() -> bool {
        true
    }

    open spec fn from_spec(value: libp2p::relay::client::Event) -> UserEvent {
        UserEvent::Relay(value)
    }
}

impl From<libp2p::dcutr::Event> for UserEvent {
    fn from(value: libp2p::dcutr::Event) -> (event: UserEvent) {
        UserEvent::Dcutr(value)
    }
}

impl vstd::std_specs::convert::FromSpecImpl<libp2p::dcutr::Event> for UserEvent {
    open spec fn obeys_from_spec() -> bool {
        true
    }

    open spec fn from_spec(value: libp2p::dcutr::Event) -> UserEvent {
        UserEvent::Dcutr(value)
    }
}

/// Every event of this kind comes from a module of the user role, and
/// folding keeps the module.
pub proof fn lemma_events_belong_to_role(event: UserEvent)
    ensures
        role_activates(Role::User, event.module_of()),
        event.folded().module_of() == event.module_of(),
{
}

} // verus!
