//! The node: what it is built from, which listeners it holds, and how it
//! moves from construction to its close.
pub mod relay;
pub mod user;

use crate::address::{ephemeral_text, multiaddr_encoding, ListenAddress};
use crate::error::{BindError, CompositeBuildError, NodeError};
use crate::event::{
    same_listener, translate, translation, EventEnvelope, Lifecycle, LifecyclePolicy,
    TransportEvent,
};
use crate::identity::NodeIdentity;
use crate::role::{module_row, role_activates, Module, Role};
use vstd::prelude::*;

verus! {

/// Where a node stands in its life.
#[derive(Clone, Copy, Debug, PartialEq, Eq, Hash, Structural)]
pub enum Phase {
    /// Built, no listener yet.
    Constructed,
    /// At least one listener, not polled since the first one came.
    Listening,
    /// At least one listener, and polled.
    Polling,
    /// Every listener has closed. Nothing leads out of here.
    Closed,
}

/// A listener as the contracts see it.
pub struct ListenerView {
    pub id: libp2p::core::transport::ListenerId,
    pub address: Seq<u8>,
    pub explicit: bool,
}

/// A listener that the node holds: its identifier, the address it was asked
/// for on, and whether the caller named that address.
#[derive(Debug)]
pub struct ListenerRecord {
    pub id: libp2p::core::transport::ListenerId,
    pub address: ListenAddress,
    pub explicit: bool,
}

impl View for ListenerRecord {
    type V = ListenerView;

    open spec fn view(&self) -> ListenerView {
        ListenerView { id: self.id, address: self.address@, explicit: self.explicit }
    }
}

/// A listen request that the node has agreed to: the address to bind, and
/// whether the caller named it.
#[derive(Debug)]
pub struct ListenRequest {
    pub address: ListenAddress,
    pub explicit: bool,
}

/// Whether some listener holds `id`.
pub open spec fn holds_listener(
    listeners: Seq<ListenerView>,
    id: libp2p::core::transport::ListenerId,
) -> bool {
    exists|i: int| 0 <= i < listeners.len() && (#[trigger] listeners[i]).id == id
}

/// Whether some listener was asked for, by name, on `address`.
pub open spec fn address_in_use(listeners: Seq<ListenerView>, address: Seq<u8>) -> bool {
    exists|i: int|
        0 <= i < listeners.len() && (#[trigger] listeners[i]).explicit && listeners[i].address
            == address
}

/// No identifier is held twice.
pub open spec fn distinct_ids(listeners: Seq<ListenerView>) -> bool {
    forall|i: int, j: int|
        0 <= i < j < listeners.len() ==> (#[trigger] listeners[i]).id != (
        #[trigger] listeners[j]).id
}

/// What a listen request comes to: the address to bind and whether it was
/// named, or the reason for turning it down. `fallback` is the address used
/// where the caller names none.
pub open spec fn listen_decision(
    phase: Phase,
    listeners: Seq<ListenerView>,
    address: Option<Seq<u8>>,
    fallback: Option<Seq<u8>>,
) -> Result<(Seq<u8>, bool), NodeError> {
    if phase == Phase::Closed {
        Err(NodeError::Closed)
    } else {
        match address {
            Some(named) => if address_in_use(listeners, named) {
                Err(NodeError::Bind(BindError::AddressInUse))
            } else {
                Ok((named, true))
            },
            None => match fallback {
                Some(open) => Ok((open, false)),
                None => Err(NodeError::Bind(BindError::AddressUnusable)),
            },
        }
    }
}

/// Why a freshly bound listener is not taken in, if it is not.
pub open spec fn record_refusal(phase: Phase, listeners: Seq<ListenerView>, fresh: ListenerView)
    -> Option<NodeError> {
    if phase == Phase::Closed {
        Some(NodeError::Closed)
    } else if holds_listener(listeners, fresh.id) {
        Some(NodeError::Bind(BindError::ListenerExists))
    } else if fresh.explicit && address_in_use(listeners, fresh.address) {
        Some(NodeError::Bind(BindError::AddressInUse))
    } else {
        None
    }
}

/// The phase once a listener has been taken in.
pub open spec fn phase_after_listen(phase: Phase) -> Phase {
    if phase == Phase::Constructed {
        Phase::Listening
    } else {
        phase
    }
}

/// The phase once a poll has been let through.
pub open spec fn phase_after_poll(phase: Phase) -> Phase {
    if phase == Phase::Listening {
        Phase::Polling
    } else {
        phase
    }
}

/// Whether a poll is let through: a closed node lets none through.
pub open spec fn poll_gate(phase: Phase) -> Result<(), NodeError> {
    if phase == Phase::Closed {
        Err(NodeError::Closed)
    } else {
        Ok(())
    }
}

/// The listener that an event reports as closed.
pub open spec fn closed_listener(event: TransportEvent) -> Option<
    libp2p::core::transport::ListenerId,
> {
    match event {
        TransportEvent::Lifecycle(Lifecycle::ListenerClosed { listener }) => Some(listener),
        _ => None,
    }
}

/// The place of the listener that holds `id`.
pub open spec fn position_of(
    listeners: Seq<ListenerView>,
    id: libp2p::core::transport::ListenerId,
) -> int {
    choose|i: int| 0 <= i < listeners.len() && (#[trigger] listeners[i]).id == id
}

/// The listeners that are left once the one with `id` has closed.
pub open spec fn listeners_without(
    listeners: Seq<ListenerView>,
    id: libp2p::core::transport::ListenerId,
) -> Seq<ListenerView> {
    if holds_listener(listeners, id) {
        listeners.remove(position_of(listeners, id))
    } else {
        listeners
    }
}

/// The listeners that are left after `event`.
pub open spec fn listeners_after(listeners: Seq<ListenerView>, event: TransportEvent) -> Seq<
    ListenerView,
> {
    match closed_listener(event) {
        Some(id) => listeners_without(listeners, id),
        None => listeners,
    }
}

/// The phase after an event that leaves `remaining` listeners: a node that
/// had listeners and has none left is closed.
pub open spec fn phase_after_event(phase: Phase, remaining: Seq<ListenerView>) -> Phase {
    if (phase == Phase::Listening || phase == Phase::Polling) && remaining.len() == 0 {
        Phase::Closed
    } else {
        phase
    }
}

/// What a node is to be built from.
#[derive(Debug)]
pub struct NodeConfig {
    pub role: Role,
    pub identity: Option<libp2p::identity::Keypair>,
    /// The address that the node is to listen on first; any port on every
    /// interface where none is given.
    pub listen_address: Option<ListenAddress>,
    /// The rendezvous server that the node registers with.
    pub rendezvous_address: Option<ListenAddress>,
    pub policy: LifecyclePolicy,
}

/// A configuration that has been accepted: the identity is settled and the
/// modules to bring up are listed, in wiring order.
#[derive(Debug)]
pub struct BuildPlan {
    role: Role,
    identity: NodeIdentity,
    modules: Vec<Module>,
    listen_address: Option<ListenAddress>,
    rendezvous: Option<ListenAddress>,
    policy: LifecyclePolicy,
}

impl NodeConfig {
    /// Accepts the configuration, or turns it down where the role registers
    /// with a rendezvous server and no address of one is given. On success the
    /// plan lists exactly the modules of the role; a key pair that was handed
    /// in is the plan's key pair.
    pub fn prepare(self) -> (plan: Result<BuildPlan, NodeError>)
        ensures
            plan.is_err() <==> (role_activates(self.role, Module::RendezvousClient)
                && self.rendezvous_address.is_none()),
            plan matches Err(e) ==> e == NodeError::MissingRendezvousAddress,
            plan matches Ok(p) ==> {
                &&& p.well_formed()
                &&& p.role_of() == self.role
                &&& p.modules_of() == module_row(self.role)
                &&& p.policy_of() == self.policy
                &&& p.identity_of().well_formed()
                &&& (self.identity matches Some(k) ==> p.identity_of().spec_keypair() == k)
                &&& p.rendezvous_of() == address_view(self.rendezvous_address)
                &&& p.listen_address_of() == address_view(self.listen_address)
            },
    {
        if self.role.needs_rendezvous_address() && self.rendezvous_address.is_none() {
            return Err(NodeError::MissingRendezvousAddress);
        }
        let identity = NodeIdentity::create(self.identity);
        let modules = self.role.modules();
        Ok(
            BuildPlan {
                role: self.role,
                identity,
                modules,
                listen_address: self.listen_address,
                rendezvous: self.rendezvous_address,
                policy: self.policy,
            },
        )
    }
}

impl BuildPlan {
    /// The plan lists the modules of its role, holds a sound identity, and has
    /// a rendezvous address where the role needs one.
    pub closed spec fn well_formed(&self) -> bool {
        &&& self.modules@ == module_row(self.role)
        &&& self.identity.well_formed()
        &&& (role_activates(self.role, Module::RendezvousClient) ==> self.rendezvous.is_some())
    }

    pub closed spec fn role_of(&self) -> Role {
        self.role
    }

    pub closed spec fn modules_of(&self) -> Seq<Module> {
        self.modules@
    }

    pub closed spec fn policy_of(&self) -> LifecyclePolicy {
        self.policy
    }

    pub closed spec fn identity_of(&self) -> NodeIdentity {
        self.identity
    }

    pub closed spec fn rendezvous_of(&self) -> Option<Seq<u8>> {
        address_view(self.rendezvous)
    }

    pub closed spec fn listen_address_of(&self) -> Option<Seq<u8>> {
        address_view(self.listen_address)
    }

    /// The role that the node will play.
    pub fn role(&self) -> (role: Role)
        ensures
            role == self.role_of(),
    {
        self.role
    }

    /// The modules to bring up, in wiring order.
    pub fn modules(&self) -> (modules: &Vec<Module>)
        ensures
            modules@ == self.modules_of(),
    {
        &self.modules
    }

    /// The identity that the transport and the modules are built on.
    pub fn identity(&self) -> (identity: &NodeIdentity)
        ensures
            *identity == self.identity_of(),
    {
        &self.identity
    }

    /// The rendezvous server to register with, where one is configured.
    pub fn rendezvous_address(&self) -> (address: Option<&ListenAddress>)
        ensures
            match address {
                Some(a) => self.rendezvous_of() == Some(a@),
                None => self.rendezvous_of().is_none(),
            },
    {
        self.rendezvous.as_ref()
    }

    /// The address that the node is to listen on first, where one is
    /// configured.
    pub fn listen_address(&self) -> (address: Option<&ListenAddress>)
        ensures
            match address {
                Some(a) => self.listen_address_of() == Some(a@),
                None => self.listen_address_of().is_none(),
            },
    {
        self.listen_address.as_ref()
    }
}

/// A node: its role and identity, the listeners it holds, and its phase.
#[derive(Debug)]
pub struct Node {
    role: Role,
    identity: NodeIdentity,
    modules: Vec<Module>,
    listen_address: Option<ListenAddress>,
    rendezvous: Option<ListenAddress>,
    policy: LifecyclePolicy,
    phase: Phase,
    listeners: Vec<ListenerRecord>,
}

/// What the driving loop does next.
#[derive(Clone, Copy, Debug, PartialEq, Eq, Hash, Structural)]
pub enum LoopStep {
    /// Poll once more.
    Poll,
    /// Leave the loop: cancellation was asked for.
    Cancelled,
    /// Leave the loop: the node has closed.
    Finished,
}

impl Node {
    /// The listeners as the contracts see them, oldest first.
    pub closed spec fn listeners_of(&self) -> Seq<ListenerView> {
        self.listeners@.map_values(|r: ListenerRecord| r@)
    }

    pub closed spec fn phase_of(&self) -> Phase {
        self.phase
    }

    pub closed spec fn role_of(&self) -> Role {
        self.role
    }

    pub closed spec fn modules_of(&self) -> Seq<Module> {
        self.modules@
    }

    pub closed spec fn policy_of(&self) -> LifecyclePolicy {
        self.policy
    }

    pub closed spec fn identity_of(&self) -> NodeIdentity {
        self.identity
    }

    pub closed spec fn rendezvous_of(&self) -> Option<Seq<u8>> {
        address_view(self.rendezvous)
    }

    pub closed spec fn listen_address_of(&self) -> Option<Seq<u8>> {
        address_view(self.listen_address)
    }

    /// What holds of every node: its modules are those of its role; it has
    /// listeners exactly while it is listening or polling; no listener
    /// identifier is held twice.
    pub closed spec fn well_formed(&self) -> bool {
        &&& self.modules@ == module_row(self.role)
        &&& self.identity.well_formed()
        &&& (role_activates(self.role, Module::RendezvousClient) ==> self.rendezvous.is_some())
        &&& (self.listeners@.len() > 0 <==> (self.phase == Phase::Listening || self.phase
            == Phase::Polling))
        &&& distinct_ids(self.listeners_of())
    }

    /// Makes the node once the host has tried to bring the planned modules up.
    /// A reported failure means that there is no node; otherwise the node
    /// runs exactly the modules of its role and holds no listener yet.
    pub fn assemble(plan: BuildPlan, failure: Option<CompositeBuildError>) -> (node: Result<
        Node,
        NodeError,
    >)
        requires
            plan.well_formed(),
        ensures
            match failure {
                Some(f) => node == Err::<Node, NodeError>(NodeError::CompositeBuild(f)),
                None => node.is_ok(),
            },
            node matches Ok(n) ==> {
                &&& n.well_formed()
                &&& n.role_of() == plan.role_of()
                &&& n.modules_of() == module_row(plan.role_of())
                &&& n.policy_of() == plan.policy_of()
                &&& n.identity_of() == plan.identity_of()
                &&& n.rendezvous_of() == plan.rendezvous_of()
                &&& n.listen_address_of() == plan.listen_address_of()
                &&& n.phase_of() == Phase::Constructed
                &&& n.listeners_of() == Seq::<ListenerView>::empty()
            },
    {
        match failure {
            Some(f) => Err(NodeError::CompositeBuild(f)),
            None => {
                let node = Node {
                    role: plan.role,
                    identity: plan.identity,
                    modules: plan.modules,
                    listen_address: plan.listen_address,
                    rendezvous: plan.rendezvous,
                    policy: plan.policy,
                    phase: Phase::Constructed,
                    listeners: Vec::new(),
                };
                assert(node.listeners_of() =~= Seq::<ListenerView>::empty());
                Ok(node)
            },
        }
    }

    /// The role, identity, modules, configured addresses and policy of `other`
    /// are those of this node: only listeners and phase may differ.
    pub open spec fn same_setup(&self, other: &Node) -> bool {
        &&& self.role_of() == other.role_of()
        &&& self.modules_of() == other.modules_of()
        &&& self.policy_of() == other.policy_of()
        &&& self.identity_of() == other.identity_of()
        &&& self.rendezvous_of() == other.rendezvous_of()
        &&& self.listen_address_of() == other.listen_address_of()
    }

    /// The role that the node plays.
    pub fn role(&self) -> (role: Role)
        ensures
            role == self.role_of(),
    {
        self.role
    }

    /// Where the node stands in its life.
    pub fn phase(&self) -> (phase: Phase)
        ensures
            phase == self.phase_of(),
    {
        self.phase
    }

    /// Which lifecycle events the node shows.
    pub fn policy(&self) -> (policy: LifecyclePolicy)
        ensures
            policy == self.policy_of(),
    {
        self.policy
    }

    /// The node's identity.
    pub fn identity(&self) -> (identity: &NodeIdentity)
        ensures
            *identity == self.identity_of(),
    {
        &self.identity
    }

    /// The modules that the node runs, in wiring order.
    pub fn modules(&self) -> (modules: &Vec<Module>)
        ensures
            modules@ == self.modules_of(),
    {
        &self.modules
    }

    /// The rendezvous server that the node registers with, where it has one.
    pub fn rendezvous_address(&self) -> (address: Option<&ListenAddress>)
        ensures
            match address {
                Some(a) => self.rendezvous_of() == Some(a@),
                None => self.rendezvous_of().is_none(),
            },
    {
        self.rendezvous.as_ref()
    }

    /// The address that the node is to listen on first, where one is
    /// configured.
    pub fn listen_address(&self) -> (address: Option<&ListenAddress>)
        ensures
            match address {
                Some(a) => self.listen_address_of() == Some(a@),
                None => self.listen_address_of().is_none(),
            },
    {
        self.listen_address.as_ref()
    }

    /// How many listeners the node holds.
    pub fn listener_count(&self) -> (count: usize)
        ensures
            count == self.listeners_of().len(),
    {
        self.listeners.len()
    }

    /// The place of the listener with `id`, if the node holds it.
    fn find_listener(&self, id: &libp2p::core::transport::ListenerId) -> (found: Option<usize>)
        ensures
            match found {
                Some(i) => i < self.listeners@.len() && self.listeners_of()[i as int].id == *id,
                None => !holds_listener(self.listeners_of(), *id),
            },
    {
        let mut i: usize = 0;
        while i < self.listeners.len()
            invariant
                i <= self.listeners@.len(),
                forall|j: int| 0 <= j < i ==> (#[trigger] self.listeners_of()[j]).id != *id,
            decreases self.listeners@.len() - i,
        {
            if same_listener(&self.listeners[i].id, id) {
                return Some(i);
            }
            i += 1;
        }
        None
    }

    /// Whether the node holds the listener with `id`.
    pub fn has_listener(&self, id: &libp2p::core::transport::ListenerId) -> (held: bool)
        ensures
            held == holds_listener(self.listeners_of(), *id),
    {
        self.find_listener(id).is_some()
    }

    /// Whether a listener was asked for, by name, on `address`.
    pub fn is_bound_to(&self, address: &ListenAddress) -> (bound: bool)
        ensures
            bound == address_in_use(self.listeners_of(), address@),
    {
        let mut i: usize = 0;
        while i < self.listeners.len()
            invariant
                i <= self.listeners@.len(),
                forall|j: int|
                    0 <= j < i ==> !((#[trigger] self.listeners_of()[j]).explicit
                        && self.listeners_of()[j].address == address@),
            decreases self.listeners@.len() - i,
        {
            if self.listeners[i].explicit && self.listeners[i].address.same_as(address) {
                assert(self.listeners_of()[i as int].explicit);
                return true;
            }
            i += 1;
        }
        false
    }

    /// Decides a listen request, given the address to use where the caller
    /// names none: a closed node listens no more; a named address is turned
    /// down where a listener was already asked for on it by name; an unnamed
    /// request takes the fallback, and fails only where there is none.
    pub fn resolve_listen(
        &self,
        address: Option<ListenAddress>,
        fallback: Option<ListenAddress>,
    ) -> (request: Result<ListenRequest, NodeError>)
        requires
            self.well_formed(),
        ensures
            match request {
                Ok(r) => listen_decision(
                    self.phase_of(),
                    self.listeners_of(),
                    address_view(address),
                    address_view(fallback),
                ) == Ok::<(Seq<u8>, bool), NodeError>((r.address@, r.explicit)),
                Err(e) => listen_decision(
                    self.phase_of(),
                    self.listeners_of(),
                    address_view(address),
                    address_view(fallback),
                ) == Err::<(Seq<u8>, bool), NodeError>(e),
            },
    {
        if self.phase == Phase::Closed {
            return Err(NodeError::Closed);
        }
        match address {
            Some(named) => {
                if self.is_bound_to(&named) {
                    Err(NodeError::Bind(BindError::AddressInUse))
                } else {
                    Ok(ListenRequest { address: named, explicit: true })
                }
            },
            None => match fallback {
                Some(open) => Ok(ListenRequest { address: open, explicit: false }),
                None => Err(NodeError::Bind(BindError::AddressUnusable)),
            },
        }
    }

    /// Decides a listen request. Where the caller names no address, the
    /// request is for any port on every interface.
    pub fn plan_listen(&self, address: Option<ListenAddress>) -> (request: Result<
        ListenRequest,
        NodeError,
    >)
        requires
            self.well_formed(),
        ensures
            match request {
                Ok(r) => listen_decision(
                    self.phase_of(),
                    self.listeners_of(),
                    address_view(address),
                    multiaddr_encoding(ephemeral_text()),
                ) == Ok::<(Seq<u8>, bool), NodeError>((r.address@, r.explicit)),
                Err(e) => listen_decision(
                    self.phase_of(),
                    self.listeners_of(),
                    address_view(address),
                    multiaddr_encoding(ephemeral_text()),
                ) == Err::<(Seq<u8>, bool), NodeError>(e),
            },
    {
        let fallback = match address {
            Some(_) => None,
            None => ListenAddress::ephemeral(),
        };
        self.resolve_listen(address, fallback)
    }

    /// Takes in a listener that the transport has bound for `request`. The
    /// node is left as it was where it is closed, where it holds the
    /// identifier already, or where the address was named and is in use;
    /// otherwise the listener is added last, and a node that had none starts
    /// listening.
    pub fn record_listener(
        &mut self,
        id: libp2p::core::transport::ListenerId,
        request: ListenRequest,
    ) -> (outcome: Result<(), NodeError>)
        requires
            old(self).well_formed(),
        ensures
            final(self).well_formed(),
            final(self).same_setup(old(self)),
            match record_refusal(
                old(self).phase_of(),
                old(self).listeners_of(),
                ListenerView { id, address: request.address@, explicit: request.explicit },
            ) {
                Some(e) => {
                    &&& outcome == Err::<(), NodeError>(e)
                    &&& final(self).listeners_of() == old(self).listeners_of()
                    &&& final(self).phase_of() == old(self).phase_of()
                },
                None => {
                    &&& outcome.is_ok()
                    &&& final(self).listeners_of() == old(self).listeners_of().push(
                        ListenerView { id, address: request.address@, explicit: request.explicit },
                    )
                    &&& final(self).phase_of() == phase_after_listen(old(self).phase_of())
                },
            },
    {
        if self.phase == Phase::Closed {
            return Err(NodeError::Closed);
        }
        if self.find_listener(&id).is_some() {
            return Err(NodeError::Bind(BindError::ListenerExists));
        }
        if request.explicit && self.is_bound_to(&request.address) {
            return Err(NodeError::Bind(BindError::AddressInUse));
        }
        let record = ListenerRecord { id, address: request.address, explicit: request.explicit };
        let ghost before = self.listeners_of();
        self.listeners.push(record);
        if self.phase == Phase::Constructed {
            self.phase = Phase::Listening;
        }
        proof {
            assert(self.listeners_of() =~= before.push(record@));
            assert forall|i: int, j: int| 0 <= i < j < self.listeners_of().len() implies (
            #[trigger] self.listeners_of()[i]).id != (#[trigger] self.listeners_of()[j]).id by {
                if j == before.len() {
                    assert(before[i].id != id);
                } else {
                    assert(before[i].id != before[j].id);
                }
            }
        }
        Ok(())
    }

    /// Lets one poll through, or says that the node has closed. The first poll
    /// of a listening node makes it a polling one.
    pub fn begin_poll(&mut self) -> (outcome: Result<(), NodeError>)
        requires
            old(self).well_formed(),
        ensures
            final(self).well_formed(),
            final(self).same_setup(old(self)),
            final(self).listeners_of() == old(self).listeners_of(),
            outcome == poll_gate(old(self).phase_of()),
            final(self).phase_of() == phase_after_poll(old(self).phase_of()),
    {
        match self.phase {
            Phase::Closed => Err(NodeError::Closed),
            Phase::Listening => {
                self.phase = Phase::Polling;
                Ok(())
            },
            _ => Ok(()),
        }
    }

    /// Takes the event that a poll brought: a closed listener leaves the
    /// node's listeners, a node whose last listener has left is closed, and
    /// the event is folded into the envelope for the application. A node that
    /// was closed before takes nothing.
    pub fn finish_poll(&mut self, event: TransportEvent) -> (envelope: Result<
        Option<EventEnvelope>,
        NodeError,
    >)
        requires
            old(self).well_formed(),
        ensures
            final(self).well_formed(),
            final(self).same_setup(old(self)),
            old(self).phase_of() == Phase::Closed ==> {
                &&& envelope == Err::<Option<EventEnvelope>, NodeError>(NodeError::Closed)
                &&& final(self).listeners_of() == old(self).listeners_of()
                &&& final(self).phase_of() == Phase::Closed
            },
            old(self).phase_of() != Phase::Closed ==> {
                &&& envelope == Ok::<Option<EventEnvelope>, NodeError>(
                    translation(old(self).role_of(), old(self).policy_of(), event),
                )
                &&& final(self).listeners_of() == listeners_after(old(self).listeners_of(), event)
                &&& final(self).phase_of() == phase_after_event(
                    old(self).phase_of(),
                    final(self).listeners_of(),
                )
            },
    {
        if self.phase == Phase::Closed {
            return Err(NodeError::Closed);
        }
        match &event {
            TransportEvent::Lifecycle(Lifecycle::ListenerClosed { listener }) => {
                self.forget_listener(listener);
            },
            _ => {},
        }
        Ok(translate(self.role, &self.policy, event))
    }

    /// Drops the listener with `id`, if the node holds it, and closes the node
    /// where that was its last.
    fn forget_listener(&mut self, id: &libp2p::core::transport::ListenerId)
        requires
            old(self).well_formed(),
            old(self).phase_of() != Phase::Closed,
        ensures
            final(self).well_formed(),
            final(self).same_setup(old(self)),
            final(self).listeners_of() == listeners_without(old(self).listeners_of(), *id),
            final(self).phase_of() == phase_after_event(
                old(self).phase_of(),
                final(self).listeners_of(),
            ),
    {
        let ghost before = self.listeners_of();
        match self.find_listener(id) {
            Some(i) => {
                let _ = self.listeners.remove(i);
                if self.listeners.len() == 0 {
                    self.phase = Phase::Closed;
                }
                proof {
                    let at = position_of(before, *id);
                    assert(before[i as int].id == *id);
                    assert(holds_listener(before, *id));
                    assert(at == i as int) by {
                        if at < i as int {
                            assert(before[at].id != before[i as int].id);
                        } else if at > i as int {
                            assert(before[i as int].id != before[at].id);
                        }
                    }
                    assert(self.listeners_of() =~= before.remove(i as int));
                    assert forall|a: int, b: int|
                        0 <= a < b < self.listeners_of().len() implies (
                    #[trigger] self.listeners_of()[a]).id != (
                    #[trigger] self.listeners_of()[b]).id by {
                        let a0 = if a < i as int { a } else { a + 1 };
                        let b0 = if b < i as int { b } else { b + 1 };
                        assert(before[a0].id != before[b0].id);
                    }
                }
            },
            None => {},
        }
    }

    /// What the driving loop does next: it stops where cancellation was asked
    /// for, stops where the node has closed, and polls otherwise.
    pub fn next_step(&self, cancelled: bool) -> (step: LoopStep)
        ensures
            step == loop_step(self.phase_of(), cancelled),
    {
        if cancelled {
            LoopStep::Cancelled
        } else if self.phase == Phase::Closed {
            LoopStep::Finished
        } else {
            LoopStep::Poll
        }
    }
}

/// An address as the contracts see it, where there is one.
pub open spec fn address_view(address: Option<ListenAddress>) -> Option<Seq<u8>> {
    match address {
        Some(a) => Some(a@),
        None => None,
    }
}

/// What the driving loop does next, between two polls.
pub open spec fn loop_step(phase: Phase, cancelled: bool) -> LoopStep {
    if cancelled {
        LoopStep::Cancelled
    } else if phase == Phase::Closed {
        LoopStep::Finished
    } else {
        LoopStep::Poll
    }
}

} // verus!
