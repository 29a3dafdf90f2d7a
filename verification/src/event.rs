//! What the node does on each event of its swarm: the lines it prints and the changes it
//! makes to the explicit peers of gossipsub.
use vstd::prelude::*;

use crate::network::Node;
use crate::outside::{lossy_utf8_text, peer_id_text, utf8_lossy};
use crate::peer::PeerKey;

verus! {

/// An event of the swarm, as the node reads it. Peers are given by identity; the other
/// values the node prints (message ids, connection and listener ids, addresses, errors) are
/// given as the text they display as.
#[allow(inconsistent_fields)]
pub enum NodeEvent {
    /// Gossipsub received `data` under `message_id`, passed on by `propagation_source`.
    GossipsubMessage { propagation_source: PeerKey, message_id: String, data: Vec<u8> },
    /// mDNS discovered these peers, one entry per address found.
    MdnsDiscovered { peers: Vec<PeerKey> },
    /// mDNS saw these peers expire, one entry per address.
    MdnsExpired { peers: Vec<PeerKey> },
    ConnectionEstablished { peer_id: PeerKey },
    ConnectionClosed { cause: Option<String> },
    IncomingConnection { connection_id: String },
    IncomingConnectionError { connection_id: String, error: String },
    OutgoingConnectionError { connection_id: String, error: String },
    NewListenAddr { address: String },
    ExpiredListenAddr { address: String },
    ListenerClosed { listener_id: String, addresses: Vec<String> },
    ListenerError { listener_id: String, error: String },
    Dialing { peer_id: Option<PeerKey>, connection_id: String },
    NewExternalAddrCandidate { address: String },
    ExternalAddrConfirmed { address: String },
    ExternalAddrExpired { address: String },
    /// Any other event, which the node ignores.
    Other,
}

/// A change to the explicit peers of gossipsub.
pub enum PeerOp {
    AddExplicit(PeerKey),
    RemoveExplicit(PeerKey),
}

/// A change to the explicit peers, with the peer by its bytes.
pub enum PeerOpView {
    AddExplicit(Seq<u8>),
    RemoveExplicit(Seq<u8>),
}

impl View for PeerOp {
    type V = PeerOpView;

    open spec fn view(&self) -> PeerOpView {
        match self {
            PeerOp::AddExplicit(k) => PeerOpView::AddExplicit(k@),
            PeerOp::RemoveExplicit(k) => PeerOpView::RemoveExplicit(k@),
        }
    }
}

/// What the node does on an event: the lines it prints, in order, and the changes to the
/// explicit peers, in order.
pub struct EventOutcome {
    pub log: Vec<String>,
    pub peer_ops: Vec<PeerOp>,
}

/// Whether the node can handle the event: a closed connection has a cause to print and a
/// dial names the peer to print.
pub open spec fn event_handled(e: &NodeEvent) -> bool {
    match e {
        NodeEvent::ConnectionClosed { cause } => cause is Some,
        NodeEvent::Dialing { peer_id, .. } => peer_id is Some,
        _ => true,
    }
}

/// Whether `handle_event` accepts `event` (see `event_handled`).
pub fn event_is_handled(event: &NodeEvent) -> (r: bool)
    ensures
        r == event_handled(event),
{
    match event {
        NodeEvent::ConnectionClosed { cause } => cause.is_some(),
        NodeEvent::Dialing { peer_id, .. } => peer_id.is_some(),
        _ => true,
    }
}

/// The line printed for each peer mDNS discovered.
pub open spec fn discovered_line(k: PeerKey) -> Seq<char> {
    "mDNS discover peer has discovered: "@ + peer_id_text(k@)
}

/// The line printed for each peer whose mDNS entry expired.
pub open spec fn expired_line(k: PeerKey) -> Seq<char> {
    "mDNS discover peer has expired: "@ + peer_id_text(k@)
}

/// The lines the node prints on an event.
pub open spec fn event_log(e: &NodeEvent) -> Seq<Seq<char>> {
    match e {
        NodeEvent::GossipsubMessage { propagation_source, message_id, data } => seq![
            "Got message: '"@ + lossy_utf8_text(data@) + "' with id: "@ + message_id@
                + " from peer: "@ + peer_id_text(propagation_source@),
        ],
        NodeEvent::MdnsDiscovered { peers } => peers@.map_values(|k: PeerKey| discovered_line(k)),
        NodeEvent::MdnsExpired { peers } => peers@.map_values(|k: PeerKey| expired_line(k)),
        NodeEvent::ConnectionEstablished { peer_id } => seq![
            "Connection Established: "@ + peer_id_text(peer_id@),
        ],
        NodeEvent::ConnectionClosed { cause } => seq![cause->0@],
        NodeEvent::IncomingConnection { connection_id } => seq![
            "In comming connection: "@ + connection_id@,
        ],
        NodeEvent::IncomingConnectionError { connection_id, error } => seq![
            "In comming connection error: "@ + connection_id@ + " error "@ + error@,
        ],
        NodeEvent::OutgoingConnectionError { connection_id, error } => seq![
            "Out going connection error: "@ + connection_id@ + " error "@ + error@,
        ],
        NodeEvent::NewListenAddr { address } => seq!["new listen address: "@ + address@],
        NodeEvent::ExpiredListenAddr { address } => seq!["expired listen address: "@ + address@],
        NodeEvent::ListenerClosed { listener_id, addresses } => seq![
            "Listener closed: "@ + listener_id@ + " "@,
        ] + addresses.deep_view(),
        NodeEvent::ListenerError { listener_id, error } => seq![
            "Listener error: "@ + listener_id@ + " error "@ + error@,
        ],
        NodeEvent::Dialing { peer_id, connection_id } => seq![
            "Dialing peer: "@ + peer_id_text(peer_id->0@) + " with connection: "@ + connection_id@,
        ],
        NodeEvent::NewExternalAddrCandidate { address } => seq![
            "new external address candidate: "@ + address@,
        ],
        NodeEvent::ExternalAddrConfirmed { address } => seq![
            "external address confirmed: "@ + address@,
        ],
        NodeEvent::ExternalAddrExpired { address } => seq![
            "external address expired: "@ + address@,
        ],
        NodeEvent::Other => seq![],
    }
}

/// The changes to the explicit peers on an event: each discovered peer is added, each
/// expired one removed, in the order mDNS lists them; no other event changes them.
pub open spec fn event_peer_ops(e: &NodeEvent) -> Seq<PeerOpView> {
    match e {
        NodeEvent::MdnsDiscovered { peers } => peers@.map_values(
            |k: PeerKey| PeerOpView::AddExplicit(k@),
        ),
        NodeEvent::MdnsExpired { peers } => peers@.map_values(
            |k: PeerKey| PeerOpView::RemoveExplicit(k@),
        ),
        _ => seq![],
    }
}

fn line2(a: &str, b: &str) -> (s: String)
    ensures
        s@ == a@ + b@,
{
    let mut s = a.to_owned();
    s.append(b);
    s
}

fn line4(a: &str, b: &str, c: &str, d: &str) -> (s: String)
    ensures
        s@ == a@ + b@ + c@ + d@,
{
    let mut s = a.to_owned();
    s.append(b);
    s.append(c);
    s.append(d);
    s
}

fn mdns_outcome(peers: &Vec<PeerKey>, discovered: bool) -> (out: EventOutcome)
    ensures
        discovered ==> out.log.deep_view() == peers@.map_values(|k: PeerKey| discovered_line(k)),
        !discovered ==> out.log.deep_view() == peers@.map_values(|k: PeerKey| expired_line(k)),
        discovered ==> out.peer_ops@.map_values(|o: PeerOp| o@) == peers@.map_values(
            |k: PeerKey| PeerOpView::AddExplicit(k@),
        ),
        !discovered ==> out.peer_ops@.map_values(|o: PeerOp| o@) == peers@.map_values(
            |k: PeerKey| PeerOpView::RemoveExplicit(k@),
        ),
{
    let mut log: Vec<String> = Vec::new();
    let mut peer_ops: Vec<PeerOp> = Vec::new();
    let n = peers.len();
    let mut i: usize = 0;
    while i < n
        invariant
            n == peers.len(),
            i <= n,
            log.len() == i,
            peer_ops.len() == i,
            forall|j: int|
                0 <= j < i ==> #[trigger] log@[j]@ == (if discovered {
                    discovered_line(peers@[j])
                } else {
                    expired_line(peers@[j])
                }),
            forall|j: int|
                0 <= j < i ==> #[trigger] peer_ops@[j]@ == (if discovered {
                    PeerOpView::AddExplicit(peers@[j]@)
                } else {
                    PeerOpView::RemoveExplicit(peers@[j]@)
                }),
        decreases n - i,
    {
        let text = peers[i].to_string();
        let prefix = if discovered {
            "mDNS discover peer has discovered: "
        } else {
            "mDNS discover peer has expired: "
        };
        log.push(line2(prefix, text.as_str()));
        if discovered {
            peer_ops.push(PeerOp::AddExplicit(peers[i].copy()));
        } else {
            peer_ops.push(PeerOp::RemoveExplicit(peers[i].copy()));
        }
        i = i + 1;
    }
    proof {
        if discovered {
            assert(log.deep_view() =~= peers@.map_values(|k: PeerKey| discovered_line(k)));
            assert(peer_ops@.map_values(|o: PeerOp| o@) =~= peers@.map_values(
                |k: PeerKey| PeerOpView::AddExplicit(k@),
            ));
        } else {
            assert(log.deep_view() =~= peers@.map_values(|k: PeerKey| expired_line(k)));
            assert(peer_ops@.map_values(|o: PeerOp| o@) =~= peers@.map_values(
                |k: PeerKey| PeerOpView::RemoveExplicit(k@),
            ));
        }
    }
    EventOutcome { log, peer_ops }
}

fn single_line(line: String) -> (out: EventOutcome)
    ensures
        out.log.deep_view() == seq![line@],
        out.peer_ops@.len() == 0,
{
    let mut log: Vec<String> = Vec::new();
    log.push(line);
    proof {
        assert(log.deep_view() =~= seq![line@]);
    }
    EventOutcome { log, peer_ops: Vec::new() }
}

/// Decides what the node does on `event`: the lines it prints and the changes to the
/// explicit peers of gossipsub. The node's own record is left as it was. A closed connection
/// must have a cause and a dial must name its peer: there is nothing to print otherwise.
pub fn handle_event(node: &mut Node, event: NodeEvent) -> (out: EventOutcome)
    requires
        event_handled(&event),
    ensures
        *final(node) == *old(node),
        out.log.deep_view() == event_log(&event),
        out.peer_ops@.map_values(|o: PeerOp| o@) == event_peer_ops(&event),
{
    let out = match &event {
        NodeEvent::GossipsubMessage { propagation_source, message_id, data } => {
            let text = utf8_lossy(data.as_slice());
            let peer = propagation_source.to_string();
            let mut line = line4("Got message: '", text.as_str(), "' with id: ", message_id.as_str());
            line.append(" from peer: ");
            line.append(peer.as_str());
            single_line(line)
        },
        NodeEvent::MdnsDiscovered { peers } => mdns_outcome(peers, true),
        NodeEvent::MdnsExpired { peers } => mdns_outcome(peers, false),
        NodeEvent::ConnectionEstablished { peer_id } => {
            let peer = peer_id.to_string();
            single_line(line2("Connection Established: ", peer.as_str()))
        },
        NodeEvent::ConnectionClosed { cause } => {
            match cause {
                Some(c) => single_line(c.clone()),
                None => single_line(String::new()),
            }
        },
        NodeEvent::IncomingConnection { connection_id } => {
            single_line(line2("In comming connection: ", connection_id.as_str()))
        },
        NodeEvent::IncomingConnectionError { connection_id, error } => {
            single_line(
                line4("In comming connection error: ", connection_id.as_str(), " error ", error.as_str()),
            )
        },
        NodeEvent::OutgoingConnectionError { connection_id, error } => {
            single_line(
                line4("Out going connection error: ", connection_id.as_str(), " error ", error.as_str()),
            )
        },
        NodeEvent::NewListenAddr { address } => {
            single_line(line2("new listen address: ", address.as_str()))
        },
        NodeEvent::ExpiredListenAddr { address } => {
            single_line(line2("expired listen address: ", address.as_str()))
        },
        NodeEvent::ListenerClosed { listener_id, addresses } => {
            let mut log: Vec<String> = Vec::new();
            let mut first = line2("Listener closed: ", listener_id.as_str());
            first.append(" ");
            log.push(first);
            let n = addresses.len();
            let mut i: usize = 0;
            while i < n
                invariant
                    n == addresses.len(),
                    i <= n,
                    log@.len() == i + 1,
                    log@[0]@ == "Listener closed: "@ + listener_id@ + " "@,
                    forall|j: int| 0 <= j < i ==> #[trigger] log@[j + 1]@ == addresses@[j]@,
                decreases n - i,
            {
                log.push(addresses[i].clone());
                i = i + 1;
            }
            proof {
                let head = seq!["Listener closed: "@ + listener_id@ + " "@];
                let want = head + addresses.deep_view();
                assert forall|k: int| 0 <= k < want.len() implies #[trigger] log.deep_view()[k]
                    == want[k] by {
                    if k > 0 {
                        assert(log@[(k - 1) + 1]@ == addresses@[k - 1]@);
                    }
                }
                assert(log.deep_view() =~= want);
            }
            EventOutcome { log, peer_ops: Vec::new() }
        },
        NodeEvent::ListenerError { listener_id, error } => {
            single_line(line4("Listener error: ", listener_id.as_str(), " error ", error.as_str()))
        },
        NodeEvent::Dialing { peer_id, connection_id } => {
            match peer_id {
                Some(k) => {
                    let peer = k.to_string();
                    single_line(
                        line4("Dialing peer: ", peer.as_str(), " with connection: ", connection_id.as_str()),
                    )
                },
                None => single_line(String::new()),
            }
        },
        NodeEvent::NewExternalAddrCandidate { address } => {
            single_line(line2("new external address candidate: ", address.as_str()))
        },
        NodeEvent::ExternalAddrConfirmed { address } => {
            single_line(line2("external address confirmed: ", address.as_str()))
        },
        NodeEvent::ExternalAddrExpired { address } => {
            single_line(line2("external address expired: ", address.as_str()))
        },
        NodeEvent::Other => EventOutcome { log: Vec::new(), peer_ops: Vec::new() },
    };
    proof {
        assert(out.peer_ops@.map_values(|o: PeerOp| o@) =~= event_peer_ops(&event));
        assert(out.log.deep_view() =~= event_log(&event));
    }
    out
}

} // verus!
