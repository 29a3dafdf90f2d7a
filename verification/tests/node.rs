use libp2p_node::command::{
    handle_command, peer_set_reply, publish_error_log, Answer, Command, SwarmAction,
};
use libp2p_node::event::{handle_event, NodeEvent, PeerOp};
use libp2p_node::network::{create_node, Client, Network, Node, Test};
use libp2p_node::peer::{peer_id_from_str, try_peer_id_from_str, PeerKey};
use libp2p_node::string_set::StringSet;
use libp2p_node::text::{decimal_string, listen_addresses};
use libp2p_node::topics::TopicTable;

const README_PEER: &str = "12D3KooWQafztgWfmHT4YbEYYG5ayTqFYdyaS12YPseuKgXTwS39";

fn readme_peer_bytes() -> Vec<u8> {
    vec![
        0, 36, 8, 1, 18, 32, 219, 93, 85, 73, 219, 83, 27, 196, 242, 190, 11, 29, 76, 71, 14,
        147, 213, 3, 113, 110, 254, 158, 123, 87, 63, 100, 4, 52, 85, 245, 152, 144,
    ]
}

fn small_peer() -> PeerKey {
    PeerKey::from_bytes(vec![0x00, 0x02, 0xab, 0xcd]).unwrap()
}

fn readme_peer() -> PeerKey {
    peer_id_from_str(README_PEER)
}

fn lines(out: &[String]) -> Vec<&str> {
    out.iter().map(|s| s.as_str()).collect()
}

#[test]
fn decimal_rendering() {
    assert_eq!(decimal_string(0), "0");
    assert_eq!(decimal_string(7), "7");
    assert_eq!(decimal_string(10), "10");
    assert_eq!(decimal_string(4001), "4001");
    assert_eq!(decimal_string(u32::MAX), "4294967295");
}

#[test]
fn listen_plan_tcp_only() {
    let r = listen_addresses(Some("127.0.0.1"), Some(4001), true, false);
    assert_eq!(r, vec!["/ip4/127.0.0.1/tcp/4001".to_string()]);
}

#[test]
fn listen_plan_udp_only() {
    let r = listen_addresses(Some("127.0.0.1"), Some(4001), false, true);
    assert_eq!(r, vec!["/ip4/127.0.0.1/udp/4001/quic-v1".to_string()]);
}

#[test]
fn listen_plan_both() {
    let r = listen_addresses(Some("10.0.0.2"), Some(9), true, true);
    assert_eq!(
        r,
        vec!["/ip4/10.0.0.2/tcp/9".to_string(), "/ip4/10.0.0.2/udp/9/quic-v1".to_string()]
    );
}

#[test]
fn listen_plan_neither_falls_back_to_tcp() {
    let r = listen_addresses(None, None, false, false);
    assert_eq!(r, vec!["/ip4/0.0.0.0/tcp/0".to_string()]);
}

#[test]
fn listen_plan_defaults() {
    let r = listen_addresses(None, None, true, true);
    assert_eq!(
        r,
        vec!["/ip4/0.0.0.0/tcp/0".to_string(), "/ip4/0.0.0.0/udp/0/quic-v1".to_string()]
    );
}

#[test]
fn peer_text_decodes_to_multihash_bytes() {
    let k = readme_peer();
    assert_eq!(k.to_bytes(), readme_peer_bytes());
}

#[test]
fn peer_text_round_trip() {
    let k = readme_peer();
    assert_eq!(k.to_string(), README_PEER);
    let small = small_peer();
    assert_eq!(small.to_string(), "1u3A");
    let back = peer_id_from_str(small.to_string().as_str());
    assert!(back.same(&small));
}

#[test]
fn peer_text_outside_alphabet_is_refused() {
    assert!(try_peer_id_from_str("0OIl").is_none());
    assert!(try_peer_id_from_str("12D3KooW0").is_none());
}

#[test]
fn peer_text_of_invalid_multihash_is_refused() {
    assert!(try_peer_id_from_str("1").is_none());
    assert!(try_peer_id_from_str("").is_none());
    assert!(PeerKey::from_bytes(vec![0x00]).is_none());
    assert!(PeerKey::from_bytes(vec![0x00, 0x02, 0xab, 0xcd, 0xef]).is_none());
}

#[test]
fn peer_text_from_text_round_trip() {
    assert_eq!(peer_id_from_str(README_PEER).to_string(), README_PEER);
    assert_eq!(try_peer_id_from_str("1u3A").unwrap().to_string(), "1u3A");
}

#[test]
fn peer_text_valid_is_accepted() {
    let k = try_peer_id_from_str(README_PEER).unwrap();
    assert!(k.same(&readme_peer()));
    assert!(!k.same(&small_peer()));
}

#[test]
fn string_set_keeps_each_text_once() {
    let mut s = StringSet::new();
    assert_eq!(s.len(), 0);
    assert!(s.insert("a".to_string()));
    assert!(s.insert("b".to_string()));
    assert!(!s.insert("a".to_string()));
    assert_eq!(s.len(), 2);
    assert!(s.contains(&"a".to_string()));
    assert!(!s.contains(&"c".to_string()));
    assert_eq!(s.to_vec(), vec!["a".to_string(), "b".to_string()]);
    let t = StringSet::from_vec(vec!["x".to_string(), "y".to_string(), "x".to_string()]);
    assert_eq!(t.to_vec(), vec!["x".to_string(), "y".to_string()]);
}

#[test]
fn topic_table_read_after_write() {
    let mut t = TopicTable::new();
    assert_eq!(t.get(&"chat".to_string()), None);
    t.insert("chat".to_string(), "h1".to_string());
    t.insert("news".to_string(), "h2".to_string());
    assert_eq!(t.get(&"chat".to_string()), Some("h1".to_string()));
    t.insert("chat".to_string(), "h3".to_string());
    assert_eq!(t.get(&"chat".to_string()), Some("h3".to_string()));
    assert_eq!(t.get(&"news".to_string()), Some("h2".to_string()));
    assert_eq!(t.get(&"other".to_string()), None);
}

#[test]
fn client_sends_on_its_topic() {
    let c = Client::new(small_peer(), "chat");
    match c.send_message_command(&"chat".to_string(), "hello".to_string()) {
        Some(Command::SendToOne { topic, message }) => {
            assert_eq!(topic, "chat");
            assert_eq!(message, "hello");
        }
        _ => panic!("expected a message for the known topic"),
    }
}

#[test]
fn client_refuses_unknown_topic() {
    let c = Client::new(small_peer(), "chat");
    assert!(c.send_message_command(&"news".to_string(), "hello".to_string()).is_none());
}

#[test]
fn client_subscribing_does_not_add_topics() {
    let c = Client::new(small_peer(), "chat");
    match c.subscribe_topic_command("news".to_string()) {
        Command::SubscribeTopic { topic } => assert_eq!(topic, "news"),
        _ => panic!("expected a subscription"),
    }
    match c.unsubscribe_topic_command("chat".to_string()) {
        Command::UnSubscribeTopic { topic } => assert_eq!(topic, "chat"),
        _ => panic!("expected an unsubscription"),
    }
    assert!(c.send_message_command(&"news".to_string(), "m".to_string()).is_none());
    assert!(c.id().same(&small_peer()));
}

#[test]
fn discovered_peers_are_connected_in_order() {
    let c = Client::new(small_peer(), "chat");
    let found = vec![README_PEER.to_string(), "1u3A".to_string()];
    let cs = c.discovered_peer_commands(&found);
    assert_eq!(cs.len(), 2);
    match &cs[0] {
        Command::ConnectPeer { peer_id } => assert_eq!(peer_id.to_bytes(), readme_peer_bytes()),
        _ => panic!("expected a connection"),
    }
    match &cs[1] {
        Command::ConnectPeer { peer_id } => assert!(peer_id.same(&small_peer())),
        _ => panic!("expected a connection"),
    }
}

#[test]
fn discovered_peers_with_bad_text_are_refused() {
    let c = Client::new(small_peer(), "chat");
    let found = vec![README_PEER.to_string(), "not a peer".to_string()];
    assert!(c.try_discovered_peer_commands(&found).is_none());
    let good = vec!["1u3A".to_string()];
    assert_eq!(c.try_discovered_peer_commands(&good).unwrap().len(), 1);
    assert_eq!(c.try_discovered_peer_commands(&vec![]).unwrap().len(), 0);
}

#[test]
fn handle_command_subscriptions() {
    let mut node = Node::new(small_peer());
    let out = handle_command(&mut node, Command::SubscribeTopic { topic: "t".to_string() });
    assert!(matches!(out.action, SwarmAction::Subscribe { ref topic } if topic == "t"));
    assert!(matches!(out.answer, Answer::Done));
    assert!(out.log.is_empty());
    let out = handle_command(&mut node, Command::UnSubscribeTopic { topic: "t".to_string() });
    assert!(matches!(out.action, SwarmAction::Unsubscribe { ref topic } if topic == "t"));
    assert!(matches!(out.answer, Answer::Done));
}

#[test]
fn handle_command_send_logs_and_publishes() {
    let mut node = Node::new(small_peer());
    let out = handle_command(
        &mut node,
        Command::SendToOne { topic: "chat".to_string(), message: "hi there".to_string() },
    );
    assert_eq!(lines(&out.log), vec!["Message : hi there"]);
    assert!(matches!(out.answer, Answer::Nothing));
    match out.action {
        SwarmAction::Publish { topic, message } => {
            assert_eq!(topic, "chat");
            assert_eq!(message, "hi there");
        }
        _ => panic!("expected a publication"),
    }
}

#[test]
fn handle_command_queries_and_connect() {
    let mut node = Node::new(small_peer());
    let out = handle_command(&mut node, Command::GetConnectedPeers);
    assert!(matches!(out.action, SwarmAction::ReplyConnectedPeers));
    assert!(matches!(out.answer, Answer::TextSet));
    assert!(matches!(
        handle_command(&mut node, Command::GetDiscoveredPeers).action,
        SwarmAction::ReplyDiscoveredPeers
    ));
    assert!(matches!(
        handle_command(&mut node, Command::ListeningAddress).action,
        SwarmAction::ReplyListeningAddresses
    ));
    match handle_command(&mut node, Command::ConnectPeer { peer_id: readme_peer() }).action {
        SwarmAction::AddExplicitPeer { peer_id } => assert!(peer_id.same(&readme_peer())),
        _ => panic!("expected an explicit peer"),
    }
    assert_eq!(node.connected_peers.len(), 0);
    assert_eq!(node.discovered_peers.len(), 0);
    assert_eq!(node.listening_address.len(), 0);
    assert_eq!(node.message, "");
}

#[test]
fn publish_error_line() {
    assert_eq!(publish_error_log("InsufficientPeers"), "Publish error: InsufficientPeers");
}

#[test]
fn peer_set_reply_dedups_and_round_trips() {
    let peers = vec![readme_peer(), small_peer(), readme_peer()];
    let reply = peer_set_reply(&peers);
    assert_eq!(reply.len(), 2);
    assert_eq!(reply.to_vec(), vec![README_PEER.to_string(), "1u3A".to_string()]);
    let c = Client::new(small_peer(), "chat");
    let cs = c.discovered_peer_commands(&reply.to_vec());
    assert_eq!(cs.len(), 2);
    match &cs[0] {
        Command::ConnectPeer { peer_id } => assert!(peer_id.same(&readme_peer())),
        _ => panic!("expected a connection"),
    }
    assert_eq!(peer_set_reply(&vec![]).len(), 0);
}

#[test]
fn event_gossip_message() {
    let mut node = Node::new(small_peer());
    let out = handle_event(
        &mut node,
        NodeEvent::GossipsubMessage {
            propagation_source: small_peer(),
            message_id: "3132".to_string(),
            data: b"hello".to_vec(),
        },
    );
    assert_eq!(lines(&out.log), vec!["Got message: 'hello' with id: 3132 from peer: 1u3A"]);
    assert!(out.peer_ops.is_empty());
}

#[test]
fn event_gossip_message_invalid_utf8() {
    let mut node = Node::new(small_peer());
    let out = handle_event(
        &mut node,
        NodeEvent::GossipsubMessage {
            propagation_source: small_peer(),
            message_id: "ab".to_string(),
            data: vec![b'o', 0xff, b'k'],
        },
    );
    assert_eq!(lines(&out.log), vec!["Got message: 'o\u{FFFD}k' with id: ab from peer: 1u3A"]);
}

#[test]
fn event_mdns_discovered_adds_explicit_peers() {
    let mut node = Node::new(small_peer());
    let out = handle_event(
        &mut node,
        NodeEvent::MdnsDiscovered { peers: vec![readme_peer(), small_peer()] },
    );
    assert_eq!(
        lines(&out.log),
        vec![
            format!("mDNS discover peer has discovered: {}", README_PEER).as_str(),
            "mDNS discover peer has discovered: 1u3A",
        ]
    );
    assert_eq!(out.peer_ops.len(), 2);
    assert!(matches!(&out.peer_ops[0], PeerOp::AddExplicit(k) if k.same(&readme_peer())));
    assert!(matches!(&out.peer_ops[1], PeerOp::AddExplicit(k) if k.same(&small_peer())));
}

#[test]
fn event_mdns_expired_removes_explicit_peers() {
    let mut node = Node::new(small_peer());
    let out = handle_event(&mut node, NodeEvent::MdnsExpired { peers: vec![small_peer()] });
    assert_eq!(lines(&out.log), vec!["mDNS discover peer has expired: 1u3A"]);
    assert!(matches!(&out.peer_ops[0], PeerOp::RemoveExplicit(k) if k.same(&small_peer())));
    let out = handle_event(&mut node, NodeEvent::MdnsExpired { peers: vec![] });
    assert!(out.log.is_empty());
    assert!(out.peer_ops.is_empty());
}

#[test]
fn event_connection_lines() {
    let mut node = Node::new(small_peer());
    let out = handle_event(&mut node, NodeEvent::ConnectionEstablished { peer_id: small_peer() });
    assert_eq!(lines(&out.log), vec!["Connection Established: 1u3A"]);
    let out = handle_event(
        &mut node,
        NodeEvent::ConnectionClosed { cause: Some("Connection reset".to_string()) },
    );
    assert_eq!(lines(&out.log), vec!["Connection reset"]);
    let out =
        handle_event(&mut node, NodeEvent::IncomingConnection { connection_id: "7".to_string() });
    assert_eq!(lines(&out.log), vec!["In comming connection: 7"]);
    let out = handle_event(
        &mut node,
        NodeEvent::IncomingConnectionError {
            connection_id: "7".to_string(),
            error: "denied".to_string(),
        },
    );
    assert_eq!(lines(&out.log), vec!["In comming connection error: 7 error denied"]);
    let out = handle_event(
        &mut node,
        NodeEvent::OutgoingConnectionError {
            connection_id: "8".to_string(),
            error: "timeout".to_string(),
        },
    );
    assert_eq!(lines(&out.log), vec!["Out going connection error: 8 error timeout"]);
    let out = handle_event(
        &mut node,
        NodeEvent::Dialing { peer_id: Some(small_peer()), connection_id: "9".to_string() },
    );
    assert_eq!(lines(&out.log), vec!["Dialing peer: 1u3A with connection: 9"]);
    assert!(out.peer_ops.is_empty());
}

#[test]
fn event_address_lines() {
    let mut node = Node::new(small_peer());
    let a = "/ip4/127.0.0.1/tcp/4001".to_string();
    let out = handle_event(&mut node, NodeEvent::NewListenAddr { address: a.clone() });
    assert_eq!(lines(&out.log), vec!["new listen address: /ip4/127.0.0.1/tcp/4001"]);
    let out = handle_event(&mut node, NodeEvent::ExpiredListenAddr { address: a.clone() });
    assert_eq!(lines(&out.log), vec!["expired listen address: /ip4/127.0.0.1/tcp/4001"]);
    let out = handle_event(&mut node, NodeEvent::NewExternalAddrCandidate { address: a.clone() });
    assert_eq!(lines(&out.log), vec!["new external address candidate: /ip4/127.0.0.1/tcp/4001"]);
    let out = handle_event(&mut node, NodeEvent::ExternalAddrConfirmed { address: a.clone() });
    assert_eq!(lines(&out.log), vec!["external address confirmed: /ip4/127.0.0.1/tcp/4001"]);
    let out = handle_event(&mut node, NodeEvent::ExternalAddrExpired { address: a.clone() });
    assert_eq!(lines(&out.log), vec!["external address expired: /ip4/127.0.0.1/tcp/4001"]);
}

#[test]
fn event_listener_lines() {
    let mut node = Node::new(small_peer());
    let out = handle_event(
        &mut node,
        NodeEvent::ListenerClosed {
            listener_id: "L1".to_string(),
            addresses: vec!["/ip4/1.2.3.4/tcp/1".to_string(), "/ip4/1.2.3.4/tcp/2".to_string()],
        },
    );
    assert_eq!(
        lines(&out.log),
        vec!["Listener closed: L1 ", "/ip4/1.2.3.4/tcp/1", "/ip4/1.2.3.4/tcp/2"]
    );
    let out = handle_event(
        &mut node,
        NodeEvent::ListenerError { listener_id: "L2".to_string(), error: "boom".to_string() },
    );
    assert_eq!(lines(&out.log), vec!["Listener error: L2 error boom"]);
    let out = handle_event(&mut node, NodeEvent::Other);
    assert!(out.log.is_empty());
    assert!(out.peer_ops.is_empty());
}

#[test]
fn create_node_sets_up_client_and_node() {
    let s = create_node(Some("127.0.0.1"), Some(4001), Some(true), Some(true), Some("chat"), small_peer());
    assert_eq!(s.swarm.subscription, "chat");
    assert_eq!(
        s.swarm.listen_addresses,
        vec!["/ip4/127.0.0.1/tcp/4001".to_string(), "/ip4/127.0.0.1/udp/4001/quic-v1".to_string()]
    );
    assert!(s.client.send_message_command(&"chat".to_string(), "m".to_string()).is_some());
    assert!(s.node.id.same(&small_peer()));
    assert_eq!(s.node.connected_peers.len(), 0);
    let t = Test { node: &s.node };
    assert_eq!(t.node.message, "");
}

#[test]
fn network_new_accepts_valid_configuration() {
    let (net, plan) =
        Network::new(None, None, Some(false), Some(false), Some("chat"), small_peer()).unwrap();
    let addrs = plan.listen_addresses;
    assert_eq!(plan.subscription, "chat");
    assert!(net.node.id.same(&small_peer()));
    assert_eq!(addrs, vec!["/ip4/0.0.0.0/tcp/0".to_string()]);
    assert!(net.client.send_message_command(&"chat".to_string(), "m".to_string()).is_some());
    assert!(net.client.send_message_command(&"other".to_string(), "m".to_string()).is_none());
}

#[test]
fn network_new_refuses_unparsable_address() {
    assert!(Network::new(Some("not-an-ip"), None, Some(true), Some(false), Some("t"), small_peer())
        .is_none());
    assert!(Network::new(Some("300.1.1.1"), Some(1), Some(false), Some(true), Some("t"), small_peer())
        .is_none());
}
