//! The state of a node and of the client that talks to it, and how both are set up from the
//! node's configuration.
use vstd::prelude::*;

use crate::command::{Command, CommandView};
use crate::outside::{base58_decoded, ident_topic_hash, is_multiaddr_text, multiaddr_parses};
use crate::peer::{is_peer_text, peer_id_from_str, try_peer_id_from_str, PeerKey};
use crate::string_set::StringSet;
use crate::text::{listen_addresses, listen_plan, resolved_address, resolved_port};
use crate::topics::TopicTable;

verus! {

/// What the node records of itself: its identity, a message, and the peers and addresses it
/// reports.
pub struct Node {
    pub id: PeerKey,
    pub message: String,
    pub connected_peers: StringSet,
    pub discovered_peers: StringSet,
    pub listening_address: StringSet,
}

impl Node {
    /// A node with identity `id`, an empty message and nothing recorded.
    pub fn new(id: PeerKey) -> (n: Node)
        ensures
            n.id@ == id@,
            n.message@ == Seq::<char>::empty(),
            n.connected_peers@ == Set::<Seq<char>>::empty(),
            n.discovered_peers@ == Set::<Seq<char>>::empty(),
            n.listening_address@ == Set::<Seq<char>>::empty(),
    {
        Node {
            id,
            message: String::new(),
            connected_peers: StringSet::new(),
            discovered_peers: StringSet::new(),
            listening_address: StringSet::new(),
        }
    }
}

impl Clone for Node {
    fn clone(&self) -> (n: Self)
        ensures
            n.id@ == self.id@,
            n.message@ == self.message@,
            n.connected_peers@ == self.connected_peers@,
            n.discovered_peers@ == self.discovered_peers@,
            n.listening_address@ == self.listening_address@,
    {
        Node {
            id: self.id.clone(),
            message: self.message.clone(),
            connected_peers: self.connected_peers.clone(),
            discovered_peers: self.discovered_peers.clone(),
            listening_address: self.listening_address.clone(),
        }
    }
}

/// The client side of a node: the node's identity and the topics the client can send to,
/// by name, with the hash gossipsub routes each by.
pub struct Client {
    id: PeerKey,
    topics: TopicTable,
}

impl Client {
    /// The identity of the node this client talks to.
    pub closed spec fn id_view(&self) -> Seq<u8> {
        self.id@
    }

    /// The topics this client can send to, from name to hash.
    pub closed spec fn topic_map(&self) -> Map<Seq<char>, Seq<char>> {
        self.topics@
    }

    /// A client for the node `id` that knows the one topic `msg_topic`, whose hash is its
    /// own name (gossipsub's identity hash).
    pub fn new(id: PeerKey, msg_topic: &str) -> (c: Client)
        ensures
            c.id_view() == id@,
            c.topic_map() == Map::<Seq<char>, Seq<char>>::empty().insert(msg_topic@, msg_topic@),
    {
        let mut topics = TopicTable::new();
        let hash = ident_topic_hash(msg_topic);
        topics.insert(msg_topic.to_owned(), hash);
        Client { id, topics }
    }

    /// The identity of the node this client talks to.
    pub fn id(&self) -> (k: PeerKey)
        ensures
            k@ == self.id_view(),
    {
        self.id.copy()
    }

    /// The command that subscribes the node to `topic`. The client's topics stay as they
    /// are: it cannot send to a topic it subscribes to later.
    pub fn subscribe_topic_command(&self, topic: String) -> (c: Command)
        ensures
            c@ == (CommandView::SubscribeTopic { topic: topic@ }),
    {
        Command::SubscribeTopic { topic }
    }

    /// The command that unsubscribes the node from `topic`. The client's topics stay as
    /// they are.
    pub fn unsubscribe_topic_command(&self, topic: String) -> (c: Command)
        ensures
            c@ == (CommandView::UnSubscribeTopic { topic: topic@ }),
    {
        Command::UnSubscribeTopic { topic }
    }

    /// The command that publishes `message` on the topic named `topic`, or `None` (the caller
    /// reports "not found") when the client does not know that topic.
    pub fn send_message_command(&self, topic: &String, message: String) -> (c: Option<Command>)
        ensures
            c is Some <==> self.topic_map().dom().contains(topic@),
            c matches Some(cmd) ==> cmd@ == (CommandView::SendToOne {
                topic: self.topic_map()[topic@],
                message: message@,
            }),
    {
        match self.topics.get(topic) {
            Some(hash) => Some(Command::SendToOne { topic: hash, message }),
            None => None,
        }
    }

    /// The commands that make each discovered peer an explicit peer, one per text of
    /// `found`, in order. Every text must be the text of a peer: no command names a peer
    /// for any other.
    pub fn discovered_peer_commands(&self, found: &Vec<String>) -> (cs: Vec<Command>)
        requires
            forall|i: int| 0 <= i < found.len() ==> is_peer_text(#[trigger] found@[i]@),
        ensures
            cs.len() == found.len(),
            forall|i: int|
                0 <= i < found.len() ==> #[trigger] cs@[i]@ is ConnectPeer && Some(
                    cs@[i]@->ConnectPeer_peer_id,
                ) == base58_decoded(found@[i]@),
    {
        let mut cs: Vec<Command> = Vec::new();
        let n = found.len();
        let mut i: usize = 0;
        while i < n
            invariant
                n == found.len(),
                i <= n,
                cs.len() == i,
                forall|j: int| 0 <= j < found.len() ==> is_peer_text(#[trigger] found@[j]@),
                forall|j: int|
                    0 <= j < i ==> #[trigger] cs@[j]@ is ConnectPeer && Some(
                        cs@[j]@->ConnectPeer_peer_id,
                    ) == base58_decoded(found@[j]@),
            decreases n - i,
        {
            let peer_id = peer_id_from_str(found[i].as_str());
            cs.push(Command::ConnectPeer { peer_id });
            i = i + 1;
        }
        cs
    }

    /// The commands of `discovered_peer_commands`, or `None` when some text of `found` is
    /// not the text of a peer.
    pub fn try_discovered_peer_commands(&self, found: &Vec<String>) -> (r: Option<Vec<Command>>)
        ensures
            r is Some <==> forall|i: int| 0 <= i < found.len() ==> is_peer_text(#[trigger] found@[i]@),
            r matches Some(cs) ==> cs.len() == found.len() && forall|i: int|
                0 <= i < found.len() ==> #[trigger] cs@[i]@ is ConnectPeer && Some(
                    cs@[i]@->ConnectPeer_peer_id,
                ) == base58_decoded(found@[i]@),
    {
        let n = found.len();
        let mut i: usize = 0;
        while i < n
            invariant
                n == found.len(),
                i <= n,
                forall|j: int| 0 <= j < i ==> is_peer_text(#[trigger] found@[j]@),
            decreases n - i,
        {
            match try_peer_id_from_str(found[i].as_str()) {
                Some(_) => {},
                None => {
                    return None;
                },
            }
            i = i + 1;
        }
        Some(self.discovered_peer_commands(found))
    }
}

impl Clone for Client {
    fn clone(&self) -> (c: Self)
        ensures
            c.id_view() == self.id_view(),
            c.topic_map() == self.topic_map(),
    {
        Client { id: self.id.clone(), topics: self.topics.clone() }
    }
}

/// A node and its client.
pub struct Network {
    pub client: Client,
    pub node: Node,
}

/// A view of a node that borrows it.
pub struct Test<'a> {
    pub node: &'a Node,
}

/// What a node's swarm is told to do when the node is set up: subscribe gossipsub to the one
/// topic `subscription` (by gossipsub's identity hash, which is the topic's name), then listen
/// on each of `listen_addresses` in order. No explicit peer is added at set-up.
pub struct SwarmPlan {
    pub subscription: String,
    pub listen_addresses: Vec<String>,
}

/// What setting up a node gives: its client, its record, and what its swarm is told to do.
pub struct NodeSetup {
    pub client: Client,
    pub node: Node,
    pub swarm: SwarmPlan,
}

/// Whether every multiaddress of a plan parses.
pub open spec fn plan_parses(plan: Seq<Seq<char>>) -> bool {
    forall|i: int| 0 <= i < plan.len() ==> is_multiaddr_text(#[trigger] plan[i])
}

/// The listening plan of a configuration, with both transport switches given.
pub open spec fn config_plan(address: Option<&str>, port: Option<u32>, tcp: bool, udp: bool) -> Seq<
    Seq<char>,
> {
    listen_plan(resolved_address(address), resolved_port(port), tcp, udp)
}

/// Whether a node can be set up from this configuration: both transport switches and the
/// topic are given, and each listening multiaddress parses.
pub open spec fn config_accepted(
    address: Option<&str>,
    port: Option<u32>,
    tcp: Option<bool>,
    udp: Option<bool>,
    msg_topic: Option<&str>,
) -> bool {
    &&& tcp is Some
    &&& udp is Some
    &&& msg_topic is Some
    &&& plan_parses(config_plan(address, port, tcp->0, udp->0))
}

fn all_parse(plan: &Vec<String>) -> (ok: bool)
    ensures
        ok == plan_parses(plan.deep_view()),
{
    let n = plan.len();
    let mut i: usize = 0;
    while i < n
        invariant
            n == plan.len(),
            i <= n,
            forall|j: int| 0 <= j < i ==> is_multiaddr_text(#[trigger] plan.deep_view()[j]),
        decreases n - i,
    {
        if !multiaddr_parses(plan[i].as_str()) {
            assert(plan.deep_view()[i as int] == plan@[i as int]@);
            return false;
        }
        assert(plan.deep_view()[i as int] == plan@[i as int]@);
        i = i + 1;
    }
    true
}

/// Sets up a node with identity `local_id` from its configuration: the client knows the
/// topic `msg_topic` alone, the node records nothing yet, and the swarm subscribes to that
/// same topic and listens on the multiaddresses of the configuration's plan.
pub fn create_node(
    address: Option<&str>,
    port: Option<u32>,
    tcp: Option<bool>,
    udp: Option<bool>,
    msg_topic: Option<&str>,
    local_id: PeerKey,
) -> (s: NodeSetup)
    requires
        config_accepted(address, port, tcp, udp, msg_topic),
    ensures
        s.swarm.listen_addresses.deep_view() == config_plan(address, port, tcp->0, udp->0),
        s.swarm.subscription@ == msg_topic->0@,
        s.client.topic_map().dom().contains(s.swarm.subscription@),
        s.client.topic_map()[s.swarm.subscription@] == s.swarm.subscription@,
        s.client.id_view() == local_id@,
        s.client.topic_map() == Map::<Seq<char>, Seq<char>>::empty().insert(
            msg_topic->0@,
            msg_topic->0@,
        ),
        s.node.id@ == local_id@,
        s.node.message@ == Seq::<char>::empty(),
        s.node.connected_peers@ == Set::<Seq<char>>::empty(),
        s.node.discovered_peers@ == Set::<Seq<char>>::empty(),
        s.node.listening_address@ == Set::<Seq<char>>::empty(),
{
    let topic = match msg_topic {
        Some(t) => t,
        None => "",
    };
    let tcp_on = match tcp {
        Some(b) => b,
        None => false,
    };
    let udp_on = match udp {
        Some(b) => b,
        None => false,
    };
    let addrs = listen_addresses(address, port, tcp_on, udp_on);
    let node_id = local_id.copy();
    let client = Client::new(local_id, topic);
    let node = Node::new(node_id);
    let subscription = topic.to_owned();
    NodeSetup { client, node, swarm: SwarmPlan { subscription, listen_addresses: addrs } }
}

impl Network {
    /// Sets up a node as `create_node` does. Both transport switches and the topic must be
    /// given; the result is `None` when a listening multiaddress of the plan does not parse.
    pub fn new(
        address: Option<&str>,
        port: Option<u32>,
        tcp: Option<bool>,
        udp: Option<bool>,
        msg_topic: Option<&str>,
        local_id: PeerKey,
    ) -> (r: Option<(Network, SwarmPlan)>)
        requires
            tcp is Some,
            udp is Some,
            msg_topic is Some,
        ensures
            r is Some <==> plan_parses(config_plan(address, port, tcp->0, udp->0)),
            r matches Some((net, plan)) ==> {
                &&& plan.listen_addresses.deep_view() == config_plan(address, port, tcp->0, udp->0)
                &&& plan.subscription@ == msg_topic->0@
                &&& net.client.id_view() == local_id@
                &&& net.client.topic_map() == Map::<Seq<char>, Seq<char>>::empty().insert(
                    msg_topic->0@,
                    msg_topic->0@,
                )
                &&& net.node.id@ == local_id@
                &&& net.node.message@ == Seq::<char>::empty()
                &&& net.node.connected_peers@ == Set::<Seq<char>>::empty()
                &&& net.node.discovered_peers@ == Set::<Seq<char>>::empty()
                &&& net.node.listening_address@ == Set::<Seq<char>>::empty()
            },
    {
        let tcp_on = tcp.unwrap();
        let udp_on = udp.unwrap();
        let plan = listen_addresses(address, port, tcp_on, udp_on);
        if !all_parse(&plan) {
            return None;
        }
        let s = create_node(address, port, tcp, udp, msg_topic, local_id);
        Some((Network { client: s.client, node: s.node }, s.swarm))
    }
}

} // verus!
