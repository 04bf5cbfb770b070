use libp2p::identity::Keypair;
use metaphy_network::address::ListenAddress;
use metaphy_network::error::{BindError, CompositeBuildError, NodeError};
use metaphy_network::event::{EventEnvelope, Lifecycle, LifecyclePolicy, Logic, TransportEvent};
use metaphy_network::node::{LoopStep, Node, NodeConfig, Phase};
use metaphy_network::role::{Module, Role};

fn rendezvous() -> Option<ListenAddress> {
    ListenAddress::parse("/ip4/192.0.2.7/tcp/62649")
}

fn config(role: Role) -> NodeConfig {
    NodeConfig {
        role,
        identity: None,
        listen_address: None,
        rendezvous_address: rendezvous(),
        policy: LifecyclePolicy::observe_all(),
    }
}

fn node(role: Role) -> Node {
    let plan = config(role).prepare().expect("the configuration is complete");
    Node::assemble(plan, None).expect("no module failed")
}

fn listen(node: &mut Node, address: Option<ListenAddress>) -> Result<libp2p::core::transport::ListenerId, NodeError> {
    let request = node.plan_listen(address)?;
    let id = libp2p::core::transport::ListenerId::next();
    node.record_listener(id, request)?;
    Ok(id)
}

fn closed(listener: libp2p::core::transport::ListenerId) -> TransportEvent {
    TransportEvent::Lifecycle(Lifecycle::ListenerClosed { listener })
}

#[test]
fn a_node_runs_exactly_the_modules_of_its_role() {
    for role in [Role::Hub, Role::Relay, Role::User, Role::Data] {
        let node = node(role);
        assert_eq!(node.role(), role);
        assert_eq!(node.modules(), &role.modules());
        assert_eq!(node.phase(), Phase::Constructed);
        assert_eq!(node.listener_count(), 0);
    }
    assert_eq!(
        node(Role::Relay).modules(),
        &vec![Module::Liveness, Module::Identify, Module::RendezvousClient, Module::RelayServer]
    );
}

#[test]
fn the_plan_lists_the_modules_before_any_is_brought_up() {
    let plan = config(Role::Hub).prepare().unwrap();
    assert_eq!(plan.role(), Role::Hub);
    assert_eq!(plan.modules(), &vec![Module::Liveness, Module::Identify, Module::RendezvousServer]);
    assert_eq!(plan.rendezvous_address().map(|a| a.as_bytes().clone()), rendezvous().map(|a| a.as_bytes().clone()));
    assert_eq!(*plan.identity().peer_id(), plan.identity().keypair().public().to_peer_id());
}

#[test]
fn a_relay_without_rendezvous_address_is_not_built() {
    let config = NodeConfig {
        role: Role::Relay,
        identity: None,
        listen_address: None,
        rendezvous_address: None,
        policy: LifecyclePolicy::observe_all(),
    };
    match config.prepare() {
        Err(e) => assert_eq!(e, NodeError::MissingRendezvousAddress),
        Ok(_) => panic!("a relay was planned without a rendezvous address"),
    }
}

#[test]
fn user_and_data_need_the_rendezvous_address_and_the_hub_does_not() {
    for role in [Role::User, Role::Data] {
        let config = NodeConfig {
            role,
            identity: None,
        listen_address: None,
            rendezvous_address: None,
            policy: LifecyclePolicy::observe_all(),
        };
        assert!(matches!(config.prepare(), Err(NodeError::MissingRendezvousAddress)));
    }
    let hub = NodeConfig {
        role: Role::Hub,
        identity: None,
        listen_address: None,
        rendezvous_address: None,
        policy: LifecyclePolicy::listeners_only(),
    };
    let plan = hub.prepare().expect("a hub registers nowhere");
    assert!(plan.rendezvous_address().is_none());
    let node = Node::assemble(plan, None).unwrap();
    assert!(node.rendezvous_address().is_none());
    assert_eq!(node.policy(), LifecyclePolicy::listeners_only());
}

#[test]
fn a_supplied_identity_is_the_identity_of_the_node() {
    let keypair = Keypair::generate_ed25519();
    let expected = keypair.public().to_peer_id();
    let config = NodeConfig {
        role: Role::Data,
        identity: Some(keypair),
        listen_address: None,
        rendezvous_address: rendezvous(),
        policy: LifecyclePolicy::observe_all(),
    };
    let node = Node::assemble(config.prepare().unwrap(), None).unwrap();
    assert_eq!(*node.identity().peer_id(), expected);
    assert_eq!(node.rendezvous_address().unwrap().as_bytes(), rendezvous().unwrap().as_bytes());
}

#[test]
fn a_failed_module_means_no_node() {
    let plan = config(Role::User).prepare().unwrap();
    let failure = CompositeBuildError {
        module: Module::LocalDiscovery,
        cause: String::from("no usable network interface"),
    };
    match Node::assemble(plan, Some(failure.clone())) {
        Err(e) => assert_eq!(e, NodeError::CompositeBuild(failure)),
        Ok(_) => panic!("a node came out of a failed build"),
    }
}

#[test]
fn user_node_listens_and_sees_its_new_address() {
    let mut node = node(Role::User);
    let request = node.plan_listen(None).expect("an open node listens");
    assert!(!request.explicit);
    assert_eq!(request.address.as_bytes(), &vec![4u8, 0, 0, 0, 0, 6, 0, 0]);
    let id = libp2p::core::transport::ListenerId::next();
    assert_eq!(node.record_listener(id, request), Ok(()));
    assert_eq!(node.phase(), Phase::Listening);
    assert!(node.has_listener(&id));
    assert_eq!(node.begin_poll(), Ok(()));
    assert_eq!(node.phase(), Phase::Polling);
    let bound = ListenAddress::parse("/ip4/127.0.0.1/tcp/40123").unwrap();
    let event = TransportEvent::Lifecycle(Lifecycle::NewListenAddr { listener: id, address: bound.duplicate() });
    match node.finish_poll(event) {
        Ok(Some(EventEnvelope::Lifecycle(Lifecycle::NewListenAddr { listener, address }))) => {
            assert_eq!(listener, id);
            assert!(address.same_as(&bound));
        }
        other => panic!("unexpected: {other:?}"),
    }
    assert_eq!(node.phase(), Phase::Polling);
    assert_eq!(node.listener_count(), 1);
}

#[test]
fn listening_twice_without_address_gives_two_listeners() {
    let mut node = node(Role::User);
    let first = listen(&mut node, None).expect("first listen");
    let second = listen(&mut node, None).expect("second listen");
    assert_ne!(first, second);
    assert_eq!(node.listener_count(), 2);
    assert!(node.has_listener(&first));
    assert!(node.has_listener(&second));
    assert!(!node.is_bound_to(&ListenAddress::ephemeral().unwrap()));
}

#[test]
fn the_same_named_address_binds_once() {
    let mut node = node(Role::Hub);
    let address = || ListenAddress::parse("/ip4/127.0.0.1/tcp/4001");
    assert!(listen(&mut node, address()).is_ok());
    assert!(node.is_bound_to(&address().unwrap()));
    assert_eq!(listen(&mut node, address()), Err(NodeError::Bind(BindError::AddressInUse)));
    assert_eq!(node.listener_count(), 1);
    assert!(listen(&mut node, ListenAddress::parse("/ip4/127.0.0.1/tcp/4002")).is_ok());
    assert_eq!(node.listener_count(), 2);
}

#[test]
fn a_named_request_is_checked_again_when_its_listener_arrives() {
    let mut node = node(Role::Hub);
    let address = || ListenAddress::parse("/ip4/127.0.0.1/tcp/4001");
    let first = node.plan_listen(address()).unwrap();
    let second = node.plan_listen(address()).unwrap();
    assert!(first.explicit && second.explicit);
    assert_eq!(node.record_listener(libp2p::core::transport::ListenerId::next(), first), Ok(()));
    assert_eq!(
        node.record_listener(libp2p::core::transport::ListenerId::next(), second),
        Err(NodeError::Bind(BindError::AddressInUse))
    );
    assert_eq!(node.listener_count(), 1);
}

#[test]
fn a_listener_identifier_is_held_once() {
    let mut node = node(Role::Data);
    let id = listen(&mut node, None).unwrap();
    let again = node.plan_listen(None).unwrap();
    assert_eq!(node.record_listener(id, again), Err(NodeError::Bind(BindError::ListenerExists)));
    assert_eq!(node.listener_count(), 1);
}

#[test]
fn without_fallback_an_unnamed_request_is_unusable() {
    let node = node(Role::User);
    match node.resolve_listen(None, None) {
        Err(e) => assert_eq!(e, NodeError::Bind(BindError::AddressUnusable)),
        Ok(_) => panic!("a request without any address was agreed to"),
    }
    let fallback = ListenAddress::parse("/ip4/127.0.0.1/tcp/0");
    let request = node.resolve_listen(None, fallback).unwrap();
    assert!(!request.explicit);
    assert_eq!(request.address.as_bytes(), &vec![4u8, 127, 0, 0, 1, 6, 0, 0]);
    let named = ListenAddress::parse("/ip4/10.0.0.1/tcp/7");
    let request = node.resolve_listen(named, None).unwrap();
    assert!(request.explicit);
    assert_eq!(request.address.as_bytes(), &vec![4u8, 10, 0, 0, 1, 6, 0, 7]);
}

#[test]
fn closing_every_listener_closes_the_node() {
    let mut node = node(Role::User);
    let first = listen(&mut node, None).unwrap();
    let second = listen(&mut node, ListenAddress::parse("/ip4/127.0.0.1/tcp/4001")).unwrap();
    assert_eq!(node.begin_poll(), Ok(()));
    assert!(matches!(
        node.finish_poll(closed(first)),
        Ok(Some(EventEnvelope::Lifecycle(Lifecycle::ListenerClosed { .. })))
    ));
    assert_eq!(node.phase(), Phase::Polling);
    assert_eq!(node.listener_count(), 1);
    assert!(!node.has_listener(&first));
    assert!(node.has_listener(&second));
    assert_eq!(node.begin_poll(), Ok(()));
    assert!(matches!(
        node.finish_poll(closed(second)),
        Ok(Some(EventEnvelope::Lifecycle(Lifecycle::ListenerClosed { .. })))
    ));
    assert_eq!(node.phase(), Phase::Closed);
    assert_eq!(node.listener_count(), 0);
    assert_eq!(node.begin_poll(), Err(NodeError::Closed));
    assert!(matches!(node.finish_poll(TransportEvent::Unrecognized), Err(NodeError::Closed)));
    assert!(matches!(node.plan_listen(None), Err(NodeError::Closed)));
    assert_eq!(listen(&mut node, None), Err(NodeError::Closed));
    assert_eq!(node.phase(), Phase::Closed);
}

#[test]
fn a_closed_address_can_be_named_again_while_the_node_lives() {
    let mut node = node(Role::Relay);
    let address = || ListenAddress::parse("/ip4/127.0.0.1/tcp/4001");
    let keep = listen(&mut node, None).unwrap();
    let gone = listen(&mut node, address()).unwrap();
    assert!(node.finish_poll(closed(gone)).is_ok());
    assert!(node.has_listener(&keep));
    assert!(!node.is_bound_to(&address().unwrap()));
    assert!(listen(&mut node, address()).is_ok());
}

#[test]
fn an_unknown_listener_closing_changes_nothing() {
    let mut node = node(Role::Hub);
    let id = listen(&mut node, None).unwrap();
    assert!(node.finish_poll(closed(libp2p::core::transport::ListenerId::next())).is_ok());
    assert_eq!(node.listener_count(), 1);
    assert!(node.has_listener(&id));
    assert_eq!(node.phase(), Phase::Listening);
}

#[test]
fn a_node_without_listener_may_poll_and_stays_constructed() {
    let mut node = node(Role::User);
    assert_eq!(node.begin_poll(), Ok(()));
    assert_eq!(node.phase(), Phase::Constructed);
    assert!(matches!(node.finish_poll(closed(libp2p::core::transport::ListenerId::next())), Ok(Some(_))));
    assert_eq!(node.phase(), Phase::Constructed);
}

#[test]
fn withheld_events_still_move_the_node() {
    let config = NodeConfig {
        role: Role::Hub,
        identity: None,
        listen_address: None,
        rendezvous_address: None,
        policy: LifecyclePolicy {
            listen_addresses: true,
            listener_closed: false,
            connections: false,
            dial_errors: false,
        },
    };
    let mut node = Node::assemble(config.prepare().unwrap(), None).unwrap();
    let id = listen(&mut node, None).unwrap();
    assert!(matches!(node.finish_poll(closed(id)), Ok(None)));
    assert_eq!(node.phase(), Phase::Closed);
}

#[test]
fn a_discovered_peer_reaches_the_application() {
    let mut node = node(Role::User);
    listen(&mut node, None).unwrap();
    let other = Keypair::generate_ed25519().public().to_peer_id();
    let at: libp2p::Multiaddr = "/ip4/192.168.1.20/tcp/4001".parse().unwrap();
    let event = libp2p::mdns::Event::Discovered(vec![(other, at.clone())]);
    assert_eq!(node.begin_poll(), Ok(()));
    match node.finish_poll(TransportEvent::Module(Logic::from(event))) {
        Ok(Some(EventEnvelope::Module(Logic::Mdns(libp2p::mdns::Event::Discovered(list))))) => {
            assert_eq!(list, vec![(other, at)]);
        }
        other => panic!("unexpected: {other:?}"),
    }
}

#[test]
fn a_hub_drops_events_of_modules_it_does_not_run() {
    let mut node = node(Role::Hub);
    listen(&mut node, None).unwrap();
    let event = libp2p::mdns::Event::Discovered(Vec::new());
    assert!(matches!(node.finish_poll(TransportEvent::Module(Logic::from(event))), Ok(None)));
}

#[test]
fn the_loop_stops_on_cancellation_or_close() {
    let mut node = node(Role::Hub);
    assert_eq!(node.next_step(false), LoopStep::Poll);
    assert_eq!(node.next_step(true), LoopStep::Cancelled);
    let id = listen(&mut node, None).unwrap();
    assert_eq!(node.next_step(false), LoopStep::Poll);
    node.finish_poll(closed(id)).unwrap();
    assert_eq!(node.next_step(false), LoopStep::Finished);
    assert_eq!(node.next_step(true), LoopStep::Cancelled);
}

#[test]
fn the_configured_listen_address_is_kept_for_the_first_listen() {
    let config = NodeConfig {
        role: Role::Hub,
        identity: None,
        listen_address: ListenAddress::parse("/ip4/127.0.0.1/tcp/62649"),
        rendezvous_address: None,
        policy: LifecyclePolicy::observe_all(),
    };
    let plan = config.prepare().unwrap();
    assert_eq!(plan.listen_address().unwrap().as_bytes(), &vec![4u8, 127, 0, 0, 1, 6, 0xf4, 0xb9]);
    let mut node = Node::assemble(plan, None).unwrap();
    let configured = node.listen_address().map(|a| a.duplicate());
    assert!(configured.is_some());
    let request = node.plan_listen(configured).unwrap();
    assert!(request.explicit);
    assert_eq!(request.address.as_bytes(), &vec![4u8, 127, 0, 0, 1, 6, 0xf4, 0xb9]);
    assert_eq!(node.record_listener(libp2p::core::transport::ListenerId::next(), request), Ok(()));
    let configured = node.listen_address().map(|a| a.duplicate());
    assert!(matches!(node.plan_listen(configured), Err(NodeError::Bind(BindError::AddressInUse))));
    assert!(a_plain_hub_has_no_configured_address());
}

fn a_plain_hub_has_no_configured_address() -> bool {
    node(Role::Hub).listen_address().is_none()
}

#[test]
fn a_refused_bind_is_in_use_or_unusable() {
    assert_eq!(BindError::from_transport(false, true), BindError::AddressInUse);
    assert_eq!(BindError::from_transport(false, false), BindError::AddressUnusable);
    assert_eq!(BindError::from_transport(true, false), BindError::AddressUnusable);
    assert_eq!(BindError::from_transport(true, true), BindError::AddressUnusable);
}
