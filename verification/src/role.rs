//! Roles, protocol modules and the table that relates them.
use vstd::prelude::*;

verus! {

/// The part a node plays in the overlay. Fixed when the node is built.
#[derive(Clone, Copy, Debug, PartialEq, Eq, Hash, Structural)]
pub enum Role {
    Hub,
    Relay,
    User,
    Data,
}

/// One wire protocol that a node may run.
#[derive(Clone, Copy, Debug, PartialEq, Eq, Hash, Structural)]
pub enum Module {
    Liveness,
    Identify,
    LocalDiscovery,
    RelayClient,
    HolePunch,
    RendezvousClient,
    RendezvousServer,
    DhtRouting,
    RelayServer,
}

/// The capability table: whether `role` runs `module`.
pub open spec fn role_activates(role: Role, module: Module) -> bool {
    match module {
        Module::Liveness => true,
        Module::Identify => true,
        Module::LocalDiscovery => role == Role::User,
        Module::RelayClient => role == Role::User,
        Module::HolePunch => role == Role::User,
        Module::RendezvousClient => role != Role::Hub,
        Module::RendezvousServer => role == Role::Hub,
        Module::DhtRouting => role == Role::User || role == Role::Data,
        Module::RelayServer => role == Role::Relay,
    }
}

/// The modules of `role` as a set.
pub open spec fn module_set(role: Role) -> Set<Module> {
    Set::new(|m: Module| role_activates(role, m))
}

/// The modules of `role` in the order in which they are wired.
pub open spec fn module_row(role: Role) -> Seq<Module> {
    match role {
        Role::Hub => seq![Module::Liveness, Module::Identify, Module::RendezvousServer],
        Role::Relay => seq![
            Module::Liveness,
            Module::Identify,
            Module::RendezvousClient,
            Module::RelayServer,
        ],
        Role::User => seq![
            Module::Liveness,
            Module::Identify,
            Module::LocalDiscovery,
            Module::RelayClient,
            Module::HolePunch,
            Module::RendezvousClient,
            Module::DhtRouting,
        ],
        Role::Data => seq![
            Module::Liveness,
            Module::Identify,
            Module::RendezvousClient,
            Module::DhtRouting,
        ],
    }
}

/// The identification string that a node of `role` announces.
pub open spec fn protocol_version_of(role: Role) -> Seq<char> {
    match role {
        Role::Hub => "HubServer | 0.1.0"@,
        Role::Relay => "/Relay/0.1.0"@,
        Role::User => "/Phylosopher/0.1.0"@,
        Role::Data => "/Phylosophy/0.1.0"@,
    }
}

/// Seconds between two liveness probes.
pub open spec fn liveness_interval_of(role: Role) -> u64 {
    match role {
        Role::Data => 15,
        _ => 1,
    }
}

/// Seconds an idle connection is kept; `None` leaves the transport's default.
pub open spec fn idle_timeout_of(role: Role) -> Option<u64> {
    match role {
        Role::Hub => Some(30u64),
        Role::Relay => Some(60u64),
        _ => None,
    }
}

impl Role {
    /// Whether a node of this role runs `module`.
    pub fn activates(self, module: Module) -> (b: bool)
        ensures
            b == role_activates(self, module),
    {
        match module {
            Module::Liveness => true,
            Module::Identify => true,
            Module::LocalDiscovery => self == Role::User,
            Module::RelayClient => self == Role::User,
            Module::HolePunch => self == Role::User,
            Module::RendezvousClient => self != Role::Hub,
            Module::RendezvousServer => self == Role::Hub,
            Module::DhtRouting => self == Role::User || self == Role::Data,
            Module::RelayServer => self == Role::Relay,
        }
    }

    /// The modules of this role, in wiring order.
    pub fn modules(self) -> (row: Vec<Module>)
        ensures
            row@ == module_row(self),
    {
        let mut row: Vec<Module> = Vec::new();
        row.push(Module::Liveness);
        row.push(Module::Identify);
        match self {
            Role::Hub => {
                row.push(Module::RendezvousServer);
            },
            Role::Relay => {
                row.push(Module::RendezvousClient);
                row.push(Module::RelayServer);
            },
            Role::User => {
                row.push(Module::LocalDiscovery);
                row.push(Module::RelayClient);
                row.push(Module::HolePunch);
                row.push(Module::RendezvousClient);
                row.push(Module::DhtRouting);
            },
            Role::Data => {
                row.push(Module::RendezvousClient);
                row.push(Module::DhtRouting);
            },
        }
        assert(row@ =~= module_row(self));
        row
    }

    /// Whether this role registers with a rendezvous server, and so cannot
    /// start without that server's address.
    pub fn needs_rendezvous_address(self) -> (b: bool)
        ensures
            b == role_activates(self, Module::RendezvousClient),
            b == (self != Role::Hub),
    {
        self != Role::Hub
    }

    /// The identification string that a node of this role announces.
    pub fn protocol_version(self) -> (s: &'static str)
        ensures
            s@ == protocol_version_of(self),
    {
        match self {
            Role::Hub => "HubServer | 0.1.0",
            Role::Relay => "/Relay/0.1.0",
            Role::User => "/Phylosopher/0.1.0",
            Role::Data => "/Phylosophy/0.1.0",
        }
    }

    /// Seconds between two liveness probes.
    pub fn liveness_interval_secs(self) -> (secs: u64)
        ensures
            secs == liveness_interval_of(self),
    {
        match self {
            Role::Data => 15,
            _ => 1,
        }
    }

    /// Seconds an idle connection is kept, where the role sets them.
    pub fn idle_timeout_secs(self) -> (secs: Option<u64>)
        ensures
            secs == idle_timeout_of(self),
    {
        match self {
            Role::Hub => Some(30u64),
            Role::Relay => Some(60u64),
            _ => None,
        }
    }
}

/// The wiring order of a role lists exactly the modules that the capability
/// table gives it, each of them once.
pub proof fn lemma_row_is_table(role: Role)
    ensures
        module_row(role).no_duplicates(),
        module_row(role).to_set() == module_set(role),
        forall|m: Module| module_row(role).contains(m) <==> role_activates(role, m),
{
    let row = module_row(role);
    assert forall|m: Module| row.contains(m) <==> role_activates(role, m) by {
        if role_activates(role, m) {
            match role {
                Role::Hub => {
                    assert(row[0] == Module::Liveness && row[1] == Module::Identify
                        && row[2] == Module::RendezvousServer);
                },
                Role::Relay => {
                    assert(row[0] == Module::Liveness && row[1] == Module::Identify
                        && row[2] == Module::RendezvousClient && row[3] == Module::RelayServer);
                },
                Role::User => {
                    assert(row[0] == Module::Liveness && row[1] == Module::Identify
                        && row[2] == Module::LocalDiscovery && row[3] == Module::RelayClient
                        && row[4] == Module::HolePunch && row[5] == Module::RendezvousClient
                        && row[6] == Module::DhtRouting);
                },
                Role::Data => {
                    assert(row[0] == Module::Liveness && row[1] == Module::Identify
                        && row[2] == Module::RendezvousClient && row[3] == Module::DhtRouting);
                },
            }
            assert(row.contains(m));
        }
    }
    assert(row.to_set() =~= module_set(role));
}

/// No two roles announce the same identification string.
pub proof fn lemma_protocol_versions_differ(a: Role, b: Role)
    requires
        a != b,
    ensures
        protocol_version_of(a) != protocol_version_of(b),
{
    reveal_strlit("HubServer | 0.1.0");
    reveal_strlit("/Relay/0.1.0");
    reveal_strlit("/Phylosopher/0.1.0");
    reveal_strlit("/Phylosophy/0.1.0");
    assert(protocol_version_of(Role::Hub).len() == 17);
    assert(protocol_version_of(Role::Relay).len() == 12);
    assert(protocol_version_of(Role::User).len() == 18);
    assert(protocol_version_of(Role::Data).len() == 17);
    assert(protocol_version_of(Role::Hub)[0] == 'H');
    assert(protocol_version_of(Role::Data)[0] == '/');
}

} // verus!
