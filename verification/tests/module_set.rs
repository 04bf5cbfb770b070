use libp2p::identity::Keypair;
use metaphy_network::address::ListenAddress;
use metaphy_network::composite::ModuleSet;
use metaphy_network::event::LifecyclePolicy;
use metaphy_network::node::{BuildPlan, NodeConfig};
use metaphy_network::role::{Module, Role};

const ALL_MODULES: [Module; 9] = [
    Module::Liveness,
    Module::Identify,
    Module::LocalDiscovery,
    Module::RelayClient,
    Module::HolePunch,
    Module::RendezvousClient,
    Module::RendezvousServer,
    Module::DhtRouting,
    Module::RelayServer,
];

fn plan(role: Role) -> BuildPlan {
    NodeConfig {
        role,
        identity: None,
        listen_address: None,
        rendezvous_address: ListenAddress::parse("/ip4/192.0.2.7/tcp/62649"),
        policy: LifecyclePolicy::observe_all(),
    }
    .prepare()
    .expect("the configuration is complete")
}

fn relay_client() -> libp2p::relay::client::Behaviour {
    let peer = Keypair::generate_ed25519().public().to_peer_id();
    let (_transport, behaviour) = libp2p::relay::client::new(peer);
    behaviour
}

fn exactly_the_row<D>(role: Role, set: &ModuleSet<D>) {
    for module in ALL_MODULES {
        assert_eq!(set.has(module), role.activates(module), "{role:?} {module:?}");
    }
}

#[test]
fn a_hub_gets_three_modules() {
    let set = plan(Role::Hub).instantiate::<u8>(None, None).expect("a hub needs nothing brought");
    exactly_the_row(Role::Hub, &set);
    assert!(set.rendezvous_server.is_some());
    assert!(set.rendezvous_client.is_none());
    assert!(set.routing.is_none());
}

#[test]
fn a_relay_and_a_data_node_need_nothing_brought() {
    let set = plan(Role::Relay).instantiate::<u8>(None, None).expect("relay");
    exactly_the_row(Role::Relay, &set);
    assert!(set.relay_server.is_some() && set.rendezvous_client.is_some());
    let set = plan(Role::Data).instantiate::<u8>(None, None).expect("data");
    exactly_the_row(Role::Data, &set);
    assert!(set.routing.is_some() && set.rendezvous_client.is_some());
}

#[test]
fn a_user_node_gets_seven_modules_and_keeps_what_was_brought() {
    let set = plan(Role::User).instantiate(Some(41u8), Some(relay_client())).expect("user");
    exactly_the_row(Role::User, &set);
    assert_eq!(set.local_discovery, Some(41));
    assert!(set.relay_client.is_some());
    assert!(set.hole_punch.is_some());
}

#[test]
fn what_the_role_does_not_run_is_dropped() {
    let set = plan(Role::Hub).instantiate(Some(41u8), Some(relay_client())).expect("hub");
    exactly_the_row(Role::Hub, &set);
    assert_eq!(set.local_discovery, None);
    assert!(set.relay_client.is_none());
}

#[test]
fn a_user_node_without_local_discovery_is_not_built() {
    match plan(Role::User).instantiate::<u8>(None, Some(relay_client())) {
        Err(e) => {
            assert_eq!(e.module, Module::LocalDiscovery);
            assert_eq!(e.cause, "the host brought no instance of the module");
        }
        Ok(_) => panic!("a set came out without local discovery"),
    }
    match plan(Role::User).instantiate::<u8>(None, None) {
        Err(e) => assert_eq!(e.module, Module::LocalDiscovery),
        Ok(_) => panic!("a set came out without local discovery"),
    }
}

#[test]
fn a_user_node_without_relay_client_is_not_built() {
    match plan(Role::User).instantiate(Some(1u8), None) {
        Err(e) => {
            assert_eq!(e.module, Module::RelayClient);
            assert_eq!(e.cause, "the host brought no instance of the module");
        }
        Ok(_) => panic!("a set came out without relay client"),
    }
}
